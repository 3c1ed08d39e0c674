//! The two kinds of rejection, and how each is reported.

use vstd::prelude::*;
use vstd::string::*;
use crate::response::ErrorResponse;

verus! {

/// A rejection: the caller's input was at fault, or the service broke one of
/// its own guarantees.
#[derive(Debug)]
pub enum ApiError {
    InternalError(String),
    BadRequest(String),
}

impl ApiError {
    /// The text that reports this error: its kind, then its message.
    pub open spec fn spec_message(&self) -> Seq<char> {
        match self {
            ApiError::InternalError(m) => "Internal server error: "@ + m@,
            ApiError::BadRequest(m) => "Bad request: "@ + m@,
        }
    }

    /// The HTTP status that reports this error: 400 for bad input, 500 otherwise.
    pub open spec fn spec_status_code(&self) -> u16 {
        match self {
            ApiError::InternalError(_) => 500,
            ApiError::BadRequest(_) => 400,
        }
    }

    pub fn message(&self) -> (r: String)
        ensures
            r@ == self.spec_message(),
    {
        match self {
            ApiError::InternalError(m) => {
                let mut s = String::from_str("Internal server error: ");
                s.append(m.as_str());
                s
            },
            ApiError::BadRequest(m) => {
                let mut s = String::from_str("Bad request: ");
                s.append(m.as_str());
                s
            },
        }
    }

    pub fn status_code(&self) -> (r: u16)
        ensures
            r == self.spec_status_code(),
    {
        match self {
            ApiError::InternalError(_) => 500,
            ApiError::BadRequest(_) => 400,
        }
    }

    /// The error envelope: `success` is false and `error` carries the message.
    pub fn error_response(&self) -> (r: ErrorResponse)
        ensures
            !r.success,
            r.error@ == self.spec_message(),
    {
        ErrorResponse { success: false, error: self.message() }
    }
}

} // verus!
