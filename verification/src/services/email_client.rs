use vstd::prelude::*;
use crate::domain::email::Email;

verus! {

/// Something that sends e-mails. Whether a message goes out rests on the
/// client (for a real one, a service outside this library); what a client
/// promises is stated through two predicates that each client defines.
pub trait EmailClient {
    /// The client has taken the message with this recipient, subject and
    /// content for delivery. A client that does not define it promises
    /// nothing of what it was handed.
    open spec fn handed_over(&self, recipient: Seq<char>, subject: Seq<char>, content: Seq<char>) -> bool {
        true
    }

    /// The client takes every message it is given. A client that does not
    /// define it makes no such promise.
    open spec fn always_succeeds(&self) -> bool {
        false
    }

    fn send_email(&self, recipient: &Email, subject: &str, content: &str) -> (r: Result<(), String>)
        ensures
            r is Ok ==> self.handed_over(recipient@, subject@, content@),
            self.always_succeeds() ==> r is Ok,
    ;
}

} // verus!
