use vstd::prelude::*;
use crate::domain::email::Email;
use crate::domain::password::Password;

verus! {

/// A registered user.
pub struct User {
    pub requires_2fa: bool,
    pub password: Password,
    pub email: Email,
}

impl User {
    /// A user with the given address, password and two-factor setting.
    pub fn new(email: Email, password: Password, requires_2fa: bool) -> (u: Self)
        ensures
            u.email == email,
            u.password == password,
            u.requires_2fa == requires_2fa,
    {
        Self { email, password, requires_2fa }
    }
}

impl Clone for User {
    fn clone(&self) -> (r: Self)
        ensures
            r == *self,
    {
        User {
            requires_2fa: self.requires_2fa,
            password: self.password.clone(),
            email: self.email.clone(),
        }
    }
}

} // verus!
