use vstd::prelude::*;
use crate::domain::error::AuthAPIError;
use crate::routes::logout::{token_is_good, validate_token};
use crate::services::data_store::BannedTokenStore;
use crate::services::hashset_banned_token_store::HashsetBannedTokenStore;

verus! {

/// A request to check a token.
pub struct VerifyTokenRequest {
    pub token: String,
}

/// Checks a token: good when its signature and expiry passed (`authentic`)
/// and it has not been banned, else `InvalidToken`.
pub fn verify_token(banned_token_store: &HashsetBannedTokenStore, request: VerifyTokenRequest, authentic: bool) -> (r: Result<(), AuthAPIError>)
    ensures
        r is Ok <==> token_is_good(banned_token_store.tokens(), request.token@, authentic),
        r is Err ==> r == Err::<(), AuthAPIError>(AuthAPIError::InvalidToken),
{
    validate_token(banned_token_store, request.token.as_str(), authentic)
}

} // verus!
