//! What callers are told when a request is refused.

use vstd::prelude::*;

verus! {

/// The body of an error response: never a success, with a code for
/// programs and a message for people.
#[derive(Debug, Clone, PartialEq, Eq)]
pub struct ErrorBody {
    pub success: bool,
    pub code: String,
    pub message: String,
}

/// Builds response bodies.
pub struct ApiResponse;

impl ApiResponse {
    /// An error body with the given code and message.
    pub fn error(code: &str, message: &str) -> (body: ErrorBody)
        ensures
            !body.success,
            body.code@ == code@,
            body.message@ == message@,
    {
        ErrorBody { success: false, code: code.to_owned(), message: message.to_owned() }
    }
}

} // verus!
