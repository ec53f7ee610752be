//! The error value that crosses the component boundary.

use vstd::prelude::*;
use vstd::string::StringExecFns;

verus! {

/// The sole error representation of the authentication component: an
/// HTTP-style status code together with a human-readable message.
#[derive(Clone, Debug)]
pub struct AuthError {
    pub status_code: u16,
    pub message: String,
}

impl AuthError {
    /// Builds an error from its two parts, unchanged.
    pub fn new(status_code: u16, message: String) -> (e: AuthError)
        ensures
            e.status_code == status_code,
            e.message == message,
    {
        AuthError { status_code, message }
    }

    /// Builds an error whose message is a fixed prefix followed by a detail
    /// string, as every stage of the pipeline phrases its failures.
    pub fn with_detail(status_code: u16, prefix: &str, detail: &str) -> (e: AuthError)
        ensures
            e.status_code == status_code,
            e.message@ == prefix@ + detail@,
    {
        let mut message = String::from_str(prefix);
        message.append(detail);
        AuthError { status_code, message }
    }
}

} // verus!
