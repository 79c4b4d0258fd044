use vstd::prelude::*;
use crate::domain::email::{Email, is_valid_email};
use crate::domain::error::AuthAPIError;
use crate::domain::password::{Password, is_valid_password};
use crate::domain::user::User;
use crate::services::data_store::{UserStore, UserStoreError};
use crate::services::hashmap_user_store::HashmapUserStore;

verus! {

/// A request to register a user.
pub struct SignupRequest {
    pub email: String,
    pub password: String,
    pub requires_2fa: bool,
}

/// The answer to a successful registration (status 201).
pub struct SignupResponse {
    pub message: String,
}

impl SignupResponse {
    /// The HTTP status of the answer.
    pub fn status_code(&self) -> (s: u16)
        ensures
            s == 201,
    {
        201
    }
}

/// The message of a successful registration.
pub open spec fn signup_success_message() -> Seq<char> {
    "User created successfully!"@
}

/// `after` is `before` with a user registered under `email`, holding
/// `password` and the two-factor setting `requires_2fa`.
pub open spec fn registers(
    before: Map<Seq<char>, User>,
    after: Map<Seq<char>, User>,
    email: Seq<char>,
    password: Seq<char>,
    requires_2fa: bool,
) -> bool {
    &&& after.contains_key(email)
    &&& after == before.insert(email, after[email])
    &&& after[email].email@ == email
    &&& after[email].password@ == password
    &&& after[email].requires_2fa == requires_2fa
}

/// Registers a user. The address must be non-empty and hold an `@`, the
/// password must take at least 8 bytes (else `InvalidCredentials`), and the
/// address must be free (else `UserAlreadyExists`).
pub fn signup(user_store: &mut HashmapUserStore, request: SignupRequest) -> (r: Result<SignupResponse, AuthAPIError>)
    ensures
        !is_valid_email(request.email@) || !is_valid_password(request.password@) ==> {
            &&& r == Err::<SignupResponse, AuthAPIError>(AuthAPIError::InvalidCredentials)
            &&& final(user_store).users() == old(user_store).users()
        },
        is_valid_email(request.email@) && is_valid_password(request.password@)
            && old(user_store).users().contains_key(request.email@) ==> {
            &&& r == Err::<SignupResponse, AuthAPIError>(AuthAPIError::UserAlreadyExists)
            &&& final(user_store).users() == old(user_store).users()
        },
        is_valid_email(request.email@) && is_valid_password(request.password@)
            && !old(user_store).users().contains_key(request.email@) ==> {
            &&& r matches Ok(resp) && resp.message@ == signup_success_message()
            &&& registers(old(user_store).users(), final(user_store).users(), request.email@,
                request.password@, request.requires_2fa)
        },
{
    let email = match Email::parse(request.email) {
        Ok(e) => e,
        Err(_) => return Err(AuthAPIError::InvalidCredentials),
    };
    let password = match Password::parse(request.password) {
        Ok(p) => p,
        Err(_) => return Err(AuthAPIError::InvalidCredentials),
    };
    let user = User::new(email, password, request.requires_2fa);
    match user_store.add_user(user) {
        Ok(()) => Ok(SignupResponse { message: String::from_str("User created successfully!") }),
        Err(UserStoreError::UserAlreadyExists) => Err(AuthAPIError::UserAlreadyExists),
        Err(_) => Err(AuthAPIError::UnexpectedError),
    }
}

} // verus!
