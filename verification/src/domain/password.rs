use vstd::prelude::*;
use vstd::utf8::encode_utf8;
use crate::text::{utf8_len, utf8_len_at_least};

verus! {

/// A password is accepted when its UTF-8 encoding takes at least 8 bytes.
pub open spec fn is_valid_password(s: Seq<char>) -> bool {
    utf8_len(s) >= 8
}

/// The message with which a short password is refused.
pub open spec fn short_password_message() -> Seq<char> {
    "Password must be at least 8 characters long"@
}

/// A password of at least 8 bytes.
#[derive(Debug, PartialEq, Eq)]
pub struct Password(String);

impl View for Password {
    type V = Seq<char>;

    closed spec fn view(&self) -> Seq<char> {
        self.0@
    }
}

impl Password {
    #[verifier::type_invariant]
    spec fn well_formed(self) -> bool {
        is_valid_password(self.0@)
    }

    /// Accepts `s` when it takes at least 8 bytes; refuses it otherwise.
    pub fn parse(s: String) -> (r: Result<Password, String>)
        ensures
            is_valid_password(s@) <==> r is Ok,
            (encode_utf8(s@).len() >= 8) <==> r is Ok,
            r matches Ok(p) ==> p@ == s@,
            r matches Err(m) ==> m@ == short_password_message(),
    {
        if !utf8_len_at_least(s.as_str(), 8) {
            Err(String::from_str("Password must be at least 8 characters long"))
        } else {
            Ok(Password(s))
        }
    }

    /// The password as text; it is always a valid password.
    pub fn as_ref(&self) -> (r: &str)
        ensures
            r@ == self@,
            is_valid_password(r@),
    {
        proof {
            use_type_invariant(self);
        }
        self.0.as_str()
    }

    /// Whether the two passwords have the same text.
    pub fn same_text(&self, other: &Password) -> (r: bool)
        ensures
            r == (self@ == other@),
    {
        self.0 == other.0
    }
}

impl Clone for Password {
    fn clone(&self) -> (r: Self)
        ensures
            r == *self,
    {
        proof {
            use_type_invariant(self);
        }
        Password(self.0.clone())
    }
}

} // verus!
