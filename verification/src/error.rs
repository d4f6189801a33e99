//! The error a request handler answers with: an HTTP status and a message.

use vstd::prelude::*;
use vstd::string::*;

verus! {

pub const STATUS_BAD_REQUEST: u16 = 400;
pub const STATUS_UNAUTHORIZED: u16 = 401;
pub const STATUS_NOT_FOUND: u16 = 404;
pub const STATUS_INTERNAL_SERVER_ERROR: u16 = 500;

/// A refused request: the status to answer with and the text of the body.
pub struct ApiError {
    pub status: u16,
    pub message: String,
}

impl ApiError {
    /// An error with the given status and message.
    pub fn new(status: u16, message: &str) -> (e: ApiError)
        ensures
            e.status == status,
            e.message@ == message@,
    {
        ApiError { status, message: String::from_str(message) }
    }

    /// A failure of the service itself, described by `message`.
    pub fn internal(message: String) -> (e: ApiError)
        ensures
            e.status == STATUS_INTERNAL_SERVER_ERROR,
            e.message == message,
    {
        ApiError { status: STATUS_INTERNAL_SERVER_ERROR, message }
    }
}

} // verus!
