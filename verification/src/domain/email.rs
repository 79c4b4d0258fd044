use vstd::prelude::*;
use crate::text::contains_char;

verus! {

/// An address is accepted when it is non-empty and holds an `@`.
pub open spec fn is_valid_email(s: Seq<char>) -> bool {
    s.len() > 0 && s.contains('@')
}

/// The message with which an address is refused.
pub open spec fn invalid_email_message(s: Seq<char>) -> Seq<char> {
    "'"@ + s + "' is not a valid email address."@
}

/// An e-mail address: non-empty and holding an `@`.
pub struct Email(String);

impl View for Email {
    type V = Seq<char>;

    closed spec fn view(&self) -> Seq<char> {
        self.0@
    }
}

impl Email {
    #[verifier::type_invariant]
    spec fn well_formed(self) -> bool {
        is_valid_email(self.0@)
    }

    /// Accepts `s` when it is non-empty and holds an `@`; refuses it otherwise
    /// with a message that quotes it.
    pub fn parse(s: String) -> (r: Result<Email, String>)
        ensures
            is_valid_email(s@) <==> r is Ok,
            (s@.len() > 0 && s@.contains('@')) <==> r is Ok,
            r matches Ok(e) ==> e@ == s@,
            r matches Err(m) ==> m@ == invalid_email_message(s@),
    {
        if !s.as_str().is_empty() && contains_char(s.as_str(), '@') {
            Ok(Email(s))
        } else {
            let mut m = String::from_str("'");
            m.append(s.as_str());
            m.append("' is not a valid email address.");
            Err(m)
        }
    }

    /// The address as text; it is always a valid address.
    pub fn as_ref(&self) -> (r: &str)
        ensures
            r@ == self@,
            is_valid_email(r@),
    {
        proof {
            use_type_invariant(self);
        }
        self.0.as_str()
    }
}

impl Clone for Email {
    fn clone(&self) -> (r: Self)
        ensures
            r == *self,
    {
        proof {
            use_type_invariant(self);
        }
        Email(self.0.clone())
    }
}

} // verus!
