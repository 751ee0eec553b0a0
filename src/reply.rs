//! What a handler answers: an HTTP status code and a short message.
use vstd::prelude::*;
use vstd::string::*;

verus! {

pub const STATUS_OK: u16 = 200;

pub const STATUS_BAD_REQUEST: u16 = 400;

pub const STATUS_UNAUTHORIZED: u16 = 401;

pub const STATUS_FORBIDDEN: u16 = 403;

pub const STATUS_INTERNAL_ERROR: u16 = 500;

/// A response: status code and body text.
pub struct Reply {
    pub status: u16,
    pub message: String,
}

/// A response as plain values.
pub ghost struct ReplyView {
    pub status: u16,
    pub message: Seq<char>,
}

impl View for Reply {
    type V = ReplyView;

    open spec fn view(&self) -> ReplyView {
        ReplyView { status: self.status, message: self.message@ }
    }
}

impl Reply {
    /// Builds a reply from a status code and message text.
    pub fn new(status: u16, message: &str) -> (r: Reply)
        ensures
            r.status == status,
            r.message@ == message@,
    {
        Reply { status, message: String::from_str(message) }
    }
}

} // verus!
