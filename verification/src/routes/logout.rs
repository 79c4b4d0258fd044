use vstd::prelude::*;
use crate::domain::error::AuthAPIError;
use crate::services::data_store::BannedTokenStore;
use crate::services::hashset_banned_token_store::HashsetBannedTokenStore;

verus! {

/// Whether a token is good: the signature and expiry check passed
/// (`authentic`) and it has not been banned.
pub open spec fn token_is_good(tokens: Set<Seq<char>>, token: Seq<char>, authentic: bool) -> bool {
    authentic && !tokens.contains(token)
}

/// Checks a token against the banned ones, given whether its signature and
/// expiry passed (`authentic`).
pub fn validate_token(banned_token_store: &HashsetBannedTokenStore, token: &str, authentic: bool) -> (r: Result<(), AuthAPIError>)
    ensures
        r is Ok <==> token_is_good(banned_token_store.tokens(), token@, authentic),
        r is Ok <==> (authentic && !banned_token_store.tokens().contains(token@)),
        r is Err ==> r == Err::<(), AuthAPIError>(AuthAPIError::InvalidToken),
{
    match banned_token_store.check_token(token) {
        Ok(true) => Err(AuthAPIError::InvalidToken),
        Ok(false) => if authentic {
            Ok(())
        } else {
            Err(AuthAPIError::InvalidToken)
        },
        Err(_) => Err(AuthAPIError::InvalidToken),
    }
}

/// Logs out: the token of the session cookie (`None` where there is no
/// cookie) must be good, and is then banned; the cookie is then removed.
pub fn logout(banned_token_store: &mut HashsetBannedTokenStore, token: Option<String>, authentic: bool) -> (r: Result<(), AuthAPIError>)
    ensures
        token is None ==> {
            &&& r == Err::<(), AuthAPIError>(AuthAPIError::MissingToken)
            &&& final(banned_token_store).tokens() == old(banned_token_store).tokens()
        },
        token is Some && !token_is_good(old(banned_token_store).tokens(), token->0@, authentic) ==> {
            &&& r == Err::<(), AuthAPIError>(AuthAPIError::InvalidToken)
            &&& final(banned_token_store).tokens() == old(banned_token_store).tokens()
        },
        token is Some && token_is_good(old(banned_token_store).tokens(), token->0@, authentic) ==> {
            &&& r is Ok
            &&& final(banned_token_store).tokens() == old(banned_token_store).tokens().insert(token->0@)
        },
{
    let token = match token {
        Some(t) => t,
        None => return Err(AuthAPIError::MissingToken),
    };
    if validate_token(banned_token_store, token.as_str(), authentic).is_err() {
        return Err(AuthAPIError::InvalidToken);
    }
    if banned_token_store.store_token(token.as_str()).is_err() {
        return Err(AuthAPIError::UnexpectedError);
    }
    Ok(())
}

} // verus!
