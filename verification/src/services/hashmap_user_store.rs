use vstd::prelude::*;
use vstd::hash_map::StringHashMap;
use crate::domain::email::Email;
use crate::domain::password::Password;
use crate::domain::user::User;
use crate::services::data_store::{
    UserStore, UserStoreError, add_user_model, get_user_model, validate_user_model,
};

verus! {

/// Users kept in memory, by address text.
pub struct HashmapUserStore {
    users: StringHashMap<User>,
}

/// Each user is kept under its own address.
pub open spec fn keyed_by_address(users: Map<Seq<char>, User>) -> bool {
    forall|k: Seq<char>| #[trigger] users.contains_key(k) ==> users[k].email@ == k
}

impl HashmapUserStore {
    #[verifier::type_invariant]
    spec fn well_formed(self) -> bool {
        keyed_by_address(self.users@)
    }

    /// An empty store.
    pub fn new() -> (r: Self)
        ensures
            r.users() == Map::<Seq<char>, User>::empty(),
    {
        HashmapUserStore { users: StringHashMap::new() }
    }
}

impl Default for HashmapUserStore {
    fn default() -> (r: Self)
        ensures
            r.users() == Map::<Seq<char>, User>::empty(),
    {
        HashmapUserStore::new()
    }
}

impl UserStore for HashmapUserStore {
    closed spec fn users(&self) -> Map<Seq<char>, User> {
        self.users@
    }

    /// Records `user` under its address, unless the address is taken.
    fn add_user(&mut self, user: User) -> (r: Result<(), UserStoreError>)
        ensures
            (final(self).users(), r) == add_user_model(old(self).users(), user),
    {
        proof {
            use_type_invariant(&*self);
        }
        if self.users.contains_key(user.email.as_ref()) {
            return Err(UserStoreError::UserAlreadyExists);
        }
        let key = String::from_str(user.email.as_ref());
        let mut users = StringHashMap::new();
        std::mem::swap(&mut users, &mut self.users);
        users.insert(key, user);
        self.users = users;
        Ok(())
    }

    /// A copy of the user registered under `email`.
    fn get_user(&self, email: Email) -> (r: Result<User, UserStoreError>)
        ensures
            r == get_user_model(self.users(), email@),
            r matches Ok(u) ==> u.email@ == email@,
    {
        proof {
            use_type_invariant(self);
        }
        match self.users.get(email.as_ref()) {
            Some(u) => Ok(u.clone()),
            None => Err(UserStoreError::UserNotFound),
        }
    }

    /// Whether a user is registered under `email` with `password`.
    fn validate_user(&self, email: Email, password: Password) -> (r: Result<(), UserStoreError>)
        ensures
            r == validate_user_model(self.users(), email@, password@),
    {
        match self.get_user(email) {
            Ok(user) => {
                if !user.password.same_text(&password) {
                    Err(UserStoreError::InvalidCredentials)
                } else {
                    Ok(())
                }
            },
            Err(e) => Err(e),
        }
    }
}

} // verus!
