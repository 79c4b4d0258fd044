use vstd::prelude::*;
use crate::domain::email::{Email, is_valid_email};
use crate::domain::error::AuthAPIError;
use crate::services::data_store::{
    LoginAttemptId, TwoFACode, TwoFACodeStore, is_valid_two_fa_code, is_uuid_text,
};
use crate::services::hashmap_two_fa_code_store::HashmapTwoFACodeStore;

verus! {

/// A request that confirms a log-in with the code that was mailed.
pub struct Verify2FARequest {
    pub email: String,
    pub login_attempt_id: String,
    pub two_fa_code: String,
}

/// Whether the three fields of a confirmation are well-formed.
pub open spec fn verify_2fa_well_formed(email: Seq<char>, login_attempt_id: Seq<char>, two_fa_code: Seq<char>) -> bool {
    &&& is_valid_email(email)
    &&& is_uuid_text(login_attempt_id)
    &&& is_valid_two_fa_code(two_fa_code)
}

/// Whether the attempt pending for `email` is the one given, with the code given.
pub open spec fn attempt_matches(
    codes: Map<Seq<char>, (LoginAttemptId, TwoFACode)>,
    email: Seq<char>,
    login_attempt_id: Seq<char>,
    two_fa_code: Seq<char>,
) -> bool {
    &&& codes.contains_key(email)
    &&& codes[email].0@ == login_attempt_id
    &&& codes[email].1@ == two_fa_code
}

/// Confirms a log-in. Ill-formed fields give `InvalidCredentials`; an attempt
/// that is not the one pending for the address, or a wrong code, gives
/// `IncorrectCredentials`. On success the pending attempt is dropped, so a
/// code serves once, and the address is returned for its cookie.
pub fn verify_2fa(two_fa_code_store: &mut HashmapTwoFACodeStore, request: Verify2FARequest) -> (r: Result<Email, AuthAPIError>)
    ensures
        !verify_2fa_well_formed(request.email@, request.login_attempt_id@, request.two_fa_code@) ==> {
            &&& r == Err::<Email, AuthAPIError>(AuthAPIError::InvalidCredentials)
            &&& final(two_fa_code_store).codes() == old(two_fa_code_store).codes()
        },
        !(request.email@.len() > 0 && request.email@.contains('@'))
            || !is_uuid_text(request.login_attempt_id@)
            || !(request.two_fa_code@.len() == 6 && forall|i: int| 0 <= i < request.two_fa_code@.len()
                ==> '0' <= #[trigger] request.two_fa_code@[i] <= '9') ==> {
            &&& r == Err::<Email, AuthAPIError>(AuthAPIError::InvalidCredentials)
            &&& final(two_fa_code_store).codes() == old(two_fa_code_store).codes()
        },
        verify_2fa_well_formed(request.email@, request.login_attempt_id@, request.two_fa_code@)
            && !attempt_matches(old(two_fa_code_store).codes(), request.email@,
                request.login_attempt_id@, request.two_fa_code@) ==> {
            &&& r == Err::<Email, AuthAPIError>(AuthAPIError::IncorrectCredentials)
            &&& final(two_fa_code_store).codes() == old(two_fa_code_store).codes()
        },
        verify_2fa_well_formed(request.email@, request.login_attempt_id@, request.two_fa_code@)
            && attempt_matches(old(two_fa_code_store).codes(), request.email@,
                request.login_attempt_id@, request.two_fa_code@) ==> {
            &&& r matches Ok(e) && e@ == request.email@
            &&& final(two_fa_code_store).codes() == old(two_fa_code_store).codes().remove(request.email@)
        },
{
    let email = match Email::parse(request.email) {
        Ok(e) => e,
        Err(_) => return Err(AuthAPIError::InvalidCredentials),
    };
    let login_attempt_id = match LoginAttemptId::parse(request.login_attempt_id) {
        Ok(a) => a,
        Err(_) => return Err(AuthAPIError::InvalidCredentials),
    };
    let two_fa_code = match TwoFACode::parse(request.two_fa_code) {
        Ok(c) => c,
        Err(_) => return Err(AuthAPIError::InvalidCredentials),
    };
    let (pending_id, pending_code) = match two_fa_code_store.get_code(&email) {
        Ok(entry) => entry,
        Err(_) => return Err(AuthAPIError::IncorrectCredentials),
    };
    if !pending_id.same_text(&login_attempt_id) || !pending_code.same_text(&two_fa_code) {
        return Err(AuthAPIError::IncorrectCredentials);
    }
    if two_fa_code_store.remove_code(&email).is_err() {
        return Err(AuthAPIError::UnexpectedError);
    }
    Ok(email)
}

} // verus!
