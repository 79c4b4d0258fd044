use vstd::prelude::*;
use crate::domain::email::{Email, is_valid_email};
use crate::domain::error::AuthAPIError;
use crate::domain::password::{Password, is_valid_password};
use crate::services::data_store::{
    LoginAttemptId, TwoFACode, TwoFACodeStore, UserStore, is_valid_two_fa_code, is_uuid_text,
    validate_user_model,
};
use crate::services::email_client::EmailClient;
use crate::services::hashmap_two_fa_code_store::HashmapTwoFACodeStore;
use crate::services::hashmap_user_store::HashmapUserStore;

verus! {

/// A request to log in.
pub struct LoginRequest {
    pub email: String,
    pub password: String,
}

/// The answer that asks for the second factor (status 206).
pub struct TwoFactorAuthResponse {
    pub message: String,
    pub login_attempt_id: String,
}

/// The message that asks for the second factor.
pub open spec fn two_fa_required_message() -> Seq<char> {
    "2FA required"@
}

/// How a successful log-in goes on.
pub enum LoginResponse {
    /// The user is in: an authentication cookie is issued for `email` (status 200).
    RegularAuth { email: Email },
    /// A code was sent to the user, who must confirm it (status 206).
    TwoFactorAuth(TwoFactorAuthResponse),
}

impl LoginResponse {
    /// The HTTP status of the answer.
    pub fn status_code(&self) -> (s: u16)
        ensures
            self is RegularAuth ==> s == 200,
            self is TwoFactorAuth ==> s == 206,
    {
        match self {
            LoginResponse::RegularAuth { .. } => 200,
            LoginResponse::TwoFactorAuth(_) => 206,
        }
    }
}

/// Whether the credentials of a request are well-formed.
pub open spec fn login_well_formed(email: Seq<char>, password: Seq<char>) -> bool {
    is_valid_password(password) && is_valid_email(email)
}

/// The subject of the mail that carries a two-factor code.
pub open spec fn two_fa_mail_subject() -> Seq<char> {
    "2FA Code"@
}

/// What a two-factor log-in does: `after` is `before` with a fresh attempt
/// recorded for `email` (replacing any pending one), its code is handed to
/// `email_client` under the subject "2FA Code" whenever the answer is a
/// success, and the answer carries the attempt's identifier, or is
/// `UnexpectedError` where the mail was not taken (which a client that takes
/// every mail never does).
pub open spec fn starts_two_factor<E: EmailClient>(
    before: Map<Seq<char>, (LoginAttemptId, TwoFACode)>,
    after: Map<Seq<char>, (LoginAttemptId, TwoFACode)>,
    email: Seq<char>,
    email_client: &E,
    r: Result<LoginResponse, AuthAPIError>,
) -> bool {
    &&& after.contains_key(email)
    &&& after == before.insert(email, after[email])
    &&& is_uuid_text(after[email].0@)
    &&& is_valid_two_fa_code(after[email].1@)
    &&& (r == Err::<LoginResponse, AuthAPIError>(AuthAPIError::UnexpectedError) || (
        r matches Ok(LoginResponse::TwoFactorAuth(resp))
        && resp.message@ == two_fa_required_message()
        && resp.login_attempt_id@ == after[email].0@))
    &&& r is Ok ==> email_client.handed_over(email, two_fa_mail_subject(), after[email].1@)
    &&& email_client.always_succeeds() ==> r is Ok
}

/// Logs a user in. Ill-formed credentials give `InvalidCredentials`, and
/// credentials that match no user give `IncorrectCredentials`. A user without
/// two-factor authentication is let in. For one with it, a fresh attempt and
/// code are recorded under the address (replacing a pending one) and the code
/// is mailed: see `starts_two_factor`.
pub fn login<E: EmailClient>(
    user_store: &HashmapUserStore,
    two_fa_code_store: &mut HashmapTwoFACodeStore,
    email_client: &E,
    request: LoginRequest,
) -> (r: Result<LoginResponse, AuthAPIError>)
    ensures
        !login_well_formed(request.email@, request.password@) ==> {
            &&& r == Err::<LoginResponse, AuthAPIError>(AuthAPIError::InvalidCredentials)
            &&& final(two_fa_code_store).codes() == old(two_fa_code_store).codes()
        },
        login_well_formed(request.email@, request.password@)
            && validate_user_model(user_store.users(), request.email@, request.password@) is Err ==> {
            &&& r == Err::<LoginResponse, AuthAPIError>(AuthAPIError::IncorrectCredentials)
            &&& final(two_fa_code_store).codes() == old(two_fa_code_store).codes()
        },
        login_well_formed(request.email@, request.password@)
            && validate_user_model(user_store.users(), request.email@, request.password@) is Ok
            && !user_store.users()[request.email@].requires_2fa ==> {
            &&& r matches Ok(LoginResponse::RegularAuth { email }) && email@ == request.email@
            &&& final(two_fa_code_store).codes() == old(two_fa_code_store).codes()
        },
        login_well_formed(request.email@, request.password@)
            && validate_user_model(user_store.users(), request.email@, request.password@) is Ok
            && user_store.users()[request.email@].requires_2fa ==> starts_two_factor(
            old(two_fa_code_store).codes(),
            final(two_fa_code_store).codes(),
            request.email@,
            email_client,
            r,
        ),
{
    let password = match Password::parse(request.password) {
        Ok(p) => p,
        Err(_) => return Err(AuthAPIError::InvalidCredentials),
    };
    let email = match Email::parse(request.email) {
        Ok(e) => e,
        Err(_) => return Err(AuthAPIError::InvalidCredentials),
    };
    if user_store.validate_user(email.clone(), password).is_err() {
        return Err(AuthAPIError::IncorrectCredentials);
    }
    let user = match user_store.get_user(email.clone()) {
        Ok(u) => u,
        Err(_) => return Err(AuthAPIError::IncorrectCredentials),
    };
    if !user.requires_2fa {
        return Ok(LoginResponse::RegularAuth { email: user.email });
    }
    handle_2fa(two_fa_code_store, email_client, email)
}

/// Starts the second factor for `email`: drops any pending attempt, records
/// a fresh attempt and code, mails the code and answers with the attempt's
/// identifier.
fn handle_2fa<E: EmailClient>(
    two_fa_code_store: &mut HashmapTwoFACodeStore,
    email_client: &E,
    email: Email,
) -> (r: Result<LoginResponse, AuthAPIError>)
    ensures
        starts_two_factor(old(two_fa_code_store).codes(), final(two_fa_code_store).codes(), email@, email_client, r),
{
    let ghost before = two_fa_code_store.codes();
    let login_attempt_id = LoginAttemptId::default();
    let two_fa_code = TwoFACode::default();
    let _ = two_fa_code_store.remove_code(&email);
    if two_fa_code_store.add_code(email.clone(), login_attempt_id.clone(), two_fa_code.clone()).is_err() {
        return Err(AuthAPIError::UnexpectedError);
    }
    proof {
        assert(two_fa_code_store.codes() =~= before.insert(email@, (login_attempt_id, two_fa_code)));
    }
    let sent = email_client.send_email(&email, "2FA Code", two_fa_code.as_ref());
    two_factor_answer(sent, &login_attempt_id)
}

/// The answer to a two-factor log-in once the code has been mailed (`sent`):
/// the attempt's identifier where the mail went out, else `UnexpectedError`.
pub fn two_factor_answer(sent: Result<(), String>, login_attempt_id: &LoginAttemptId) -> (r: Result<LoginResponse, AuthAPIError>)
    ensures
        sent is Err <==> r == Err::<LoginResponse, AuthAPIError>(AuthAPIError::UnexpectedError),
        sent is Ok ==> (r matches Ok(LoginResponse::TwoFactorAuth(resp))
            && resp.message@ == two_fa_required_message()
            && resp.login_attempt_id@ == login_attempt_id@),
{
    if sent.is_err() {
        return Err(AuthAPIError::UnexpectedError);
    }
    let response = TwoFactorAuthResponse {
        message: String::from_str("2FA required"),
        login_attempt_id: String::from_str(login_attempt_id.as_ref()),
    };
    Ok(LoginResponse::TwoFactorAuth(response))
}

} // verus!
