//! What a request is answered with.
use vstd::prelude::*;
use crate::model::{Message, PublicUser};

verus! {

/// An error answer: an HTTP status and a plain-text message.
#[derive(Debug, Clone, PartialEq, Eq)]
pub struct ServiceError {
    pub status: u16,
    pub message: String,
}

/// `e` is the error answer with `status` and `message`.
pub open spec fn spec_error_is(e: ServiceError, status: u16, message: Seq<char>) -> bool {
    e.status == status && e.message@ == message
}

/// An error answer as values: its status and message.
pub open spec fn spec_error_view(e: ServiceError) -> (u16, Seq<char>) {
    (e.status, e.message@)
}

/// A result whose error is an error answer, with the error taken as values.
pub open spec fn spec_outcome<A>(r: Result<A, ServiceError>) -> Result<A, (u16, Seq<char>)> {
    match r {
        Ok(a) => Ok(a),
        Err(e) => Err(spec_error_view(e)),
    }
}

impl ServiceError {
    pub fn new(status: u16, message: &str) -> (e: ServiceError)
        ensures
            spec_error_is(e, status, message@),
    {
        ServiceError { status, message: String::from_str(message) }
    }
}

/// A regular answer.
#[derive(Debug, PartialEq, Eq)]
pub enum Reply {
    /// The status alone, with an empty body.
    Status(u16),
    /// The status with a plain-text body.
    Text(u16, String),
    /// 200 with an account (without its password hash) as JSON.
    Account(PublicUser),
    /// 200 with a message as JSON.
    Posted(Message),
}

/// `r` is the plain-text answer with `status` and `body`.
pub open spec fn spec_text_is(r: Reply, status: u16, body: Seq<char>) -> bool {
    r matches Reply::Text(s, b) && s == status && b@ == body
}

/// A plain-text answer.
pub fn text_reply(status: u16, body: &str) -> (r: Reply)
    ensures
        spec_text_is(r, status, body@),
{
    Reply::Text(status, String::from_str(body))
}

} // verus!
