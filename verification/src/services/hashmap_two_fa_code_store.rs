use vstd::prelude::*;
use vstd::hash_map::StringHashMap;
use crate::domain::email::Email;
use crate::services::data_store::{
    LoginAttemptId, TwoFACode, TwoFACodeStore, TwoFACodeStoreError, add_code_model,
    get_code_model, remove_code_model,
};

verus! {

/// Pending two-factor attempts kept in memory, by address text.
pub struct HashmapTwoFACodeStore {
    codes: StringHashMap<(LoginAttemptId, TwoFACode)>,
}

impl HashmapTwoFACodeStore {
    /// An empty store.
    pub fn new() -> (r: Self)
        ensures
            r.codes() == Map::<Seq<char>, (LoginAttemptId, TwoFACode)>::empty(),
    {
        HashmapTwoFACodeStore { codes: StringHashMap::new() }
    }
}

impl Default for HashmapTwoFACodeStore {
    fn default() -> (r: Self)
        ensures
            r.codes() == Map::<Seq<char>, (LoginAttemptId, TwoFACode)>::empty(),
    {
        HashmapTwoFACodeStore::new()
    }
}

impl TwoFACodeStore for HashmapTwoFACodeStore {
    closed spec fn codes(&self) -> Map<Seq<char>, (LoginAttemptId, TwoFACode)> {
        self.codes@
    }

    /// Records the attempt and code of `email`, unless one is pending.
    fn add_code(&mut self, email: Email, login_attempt_id: LoginAttemptId, code: TwoFACode) -> (r: Result<(), TwoFACodeStoreError>)
        ensures
            (final(self).codes(), r) == add_code_model(old(self).codes(), email@, login_attempt_id, code),
    {
        if self.codes.contains_key(email.as_ref()) {
            return Err(TwoFACodeStoreError::UnexpectedError);
        }
        self.codes.insert(String::from_str(email.as_ref()), (login_attempt_id, code));
        Ok(())
    }

    /// Drops the pending attempt of `email`, which must exist.
    fn remove_code(&mut self, email: &Email) -> (r: Result<(), TwoFACodeStoreError>)
        ensures
            (final(self).codes(), r) == remove_code_model(old(self).codes(), email@),
    {
        if !self.codes.contains_key(email.as_ref()) {
            return Err(TwoFACodeStoreError::UnexpectedError);
        }
        self.codes.remove(email.as_ref());
        Ok(())
    }

    /// A copy of the pending attempt of `email`.
    fn get_code(&self, email: &Email) -> (r: Result<(LoginAttemptId, TwoFACode), TwoFACodeStoreError>)
        ensures
            r == get_code_model(self.codes(), email@),
    {
        match self.codes.get(email.as_ref()) {
            Some(entry) => Ok((entry.0.clone(), entry.1.clone())),
            None => Err(TwoFACodeStoreError::UnexpectedError),
        }
    }
}

} // verus!
