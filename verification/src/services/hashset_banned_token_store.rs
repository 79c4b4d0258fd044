use vstd::prelude::*;
use vstd::hash_set::StringHashSet;
use crate::services::data_store::{
    BannedTokenStore, BannedTokenStoreError, check_token_model, store_token_model,
};

verus! {

/// Banned tokens kept in memory.
pub struct HashsetBannedTokenStore {
    tokens: StringHashSet,
}

impl HashsetBannedTokenStore {
    /// An empty store.
    pub fn new() -> (r: Self)
        ensures
            r.tokens() == Set::<Seq<char>>::empty(),
    {
        HashsetBannedTokenStore { tokens: StringHashSet::new() }
    }
}

impl Default for HashsetBannedTokenStore {
    fn default() -> (r: Self)
        ensures
            r.tokens() == Set::<Seq<char>>::empty(),
    {
        HashsetBannedTokenStore::new()
    }
}

impl BannedTokenStore for HashsetBannedTokenStore {
    closed spec fn tokens(&self) -> Set<Seq<char>> {
        self.tokens@
    }

    /// Bans `token`, unless it is banned already.
    fn store_token(&mut self, token: &str) -> (r: Result<(), BannedTokenStoreError>)
        ensures
            (final(self).tokens(), r) == store_token_model(old(self).tokens(), token@),
    {
        if self.tokens.contains(token) {
            return Err(BannedTokenStoreError::TokenAlreadyBanned);
        }
        self.tokens.insert(String::from_str(token));
        Ok(())
    }

    /// Whether `token` is banned.
    fn check_token(&self, token: &str) -> (r: Result<bool, BannedTokenStoreError>)
        ensures
            r == check_token_model(self.tokens(), token@),
            r == Ok::<bool, BannedTokenStoreError>(self.tokens().contains(token@)),
    {
        Ok(self.tokens.contains(token))
    }
}

} // verus!
