//! The bodies that the two endpoints accept.
use vstd::prelude::*;
use vstd::string::*;

verus! {

/// A request to join the mailing list.
pub struct SubscribeRequest {
    pub email: String,
}

impl SubscribeRequest {
    pub fn new(email: &str) -> (r: SubscribeRequest)
        ensures
            r.email@ == email@,
    {
        SubscribeRequest { email: String::from_str(email) }
    }
}

/// The value that `is_html` takes when a request leaves it out.
pub fn default_true() -> (r: bool)
    ensures
        r,
{
    true
}

/// A request to deliver one newsletter to every subscriber.
pub struct SendNewsletterRequest {
    pub subject: String,
    pub content: String,
    pub is_html: bool,
}

impl SendNewsletterRequest {
    /// A request whose `is_html` takes its default.
    pub fn new(subject: &str, content: &str) -> (r: SendNewsletterRequest)
        ensures
            r.subject@ == subject@,
            r.content@ == content@,
            r.is_html,
    {
        SendNewsletterRequest {
            subject: String::from_str(subject),
            content: String::from_str(content),
            is_html: default_true(),
        }
    }
}

} // verus!
