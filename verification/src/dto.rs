//! The payload a caller submits when creating a request record.

use vstd::prelude::*;

verus! {

/// The inbound payload of a request-creation call: the value to store.
#[derive(Clone, Debug)]
pub struct RequestDto {
    pub value: String,
}

} // verus!
