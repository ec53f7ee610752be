//! Response envelopes shared by the endpoint handlers.

use vstd::prelude::*;

verus! {

/// An error response envelope: a status code and a nested payload holding
/// the message, mirroring the JSON shape the handlers emit.
#[derive(Clone, Debug)]
pub struct LambdaError {
    pub status_code: u16,
    pub error: LambdaErrorPayload,
}

/// The body of an error response.
#[derive(Clone, Debug)]
pub struct LambdaErrorPayload {
    pub message: String,
}

impl LambdaError {
    /// Wraps a status code and message into the error envelope.
    pub fn new(status_code: u16, message: String) -> (e: LambdaError)
        ensures
            e.status_code == status_code,
            e.error.message == message,
    {
        LambdaError { status_code, error: LambdaErrorPayload { message } }
    }
}

/// A success response envelope: a status code and a message body.
#[derive(Clone, Debug)]
pub struct LambdaResult {
    pub status_code: u16,
    pub message: String,
}

impl LambdaResult {
    /// Wraps a status code and message into the success envelope.
    pub fn new(status_code: u16, message: String) -> (r: LambdaResult)
        ensures
            r.status_code == status_code,
            r.message == message,
    {
        LambdaResult { status_code, message }
    }
}

} // verus!
