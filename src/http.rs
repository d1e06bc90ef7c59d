use vstd::prelude::*;

verus! {

/// The class of a failure to read a snapshot from a request body.
#[derive(Debug, Clone, Copy, PartialEq, Eq, Structural)]
pub enum PayloadError {
    /// The request does not declare JSON content.
    ContentType,
    /// The JSON is well formed but does not have the snapshot's shape.
    Data,
    /// Any other failure: malformed JSON, an overlong or unreadable body.
    Other,
}

/// The HTTP status answered for each class of payload failure.
pub open spec fn status_of(e: PayloadError) -> u16 {
    match e {
        PayloadError::ContentType => 415,
        PayloadError::Data => 422,
        PayloadError::Other => 400,
    }
}

/// The HTTP status answered for a payload failure.
pub fn json_error_status(e: PayloadError) -> (r: u16)
    ensures
        r == status_of(e),
{
    match e {
        PayloadError::ContentType => 415,
        PayloadError::Data => 422,
        PayloadError::Other => 400,
    }
}

} // verus!
