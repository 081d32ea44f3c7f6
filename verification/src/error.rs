//! The ways in which a request can fail.

use vstd::prelude::*;

verus! {

/// Why a request was not served.
#[derive(Clone, Copy, Debug, PartialEq, Eq, Structural)]
pub enum RequestError {
    /// The body is longer than the service accepts.
    PayloadTooLarge,
    /// The body is not a JSON object with a string field `message`.
    BadRequest,
    /// The lock of the message store is poisoned: a holder panicked, and
    /// the list can no longer be trusted.
    InternalLockFailure,
}

impl RequestError {
    /// The HTTP status code that reports this failure.
    pub open spec fn spec_status(self) -> u16 {
        match self {
            RequestError::PayloadTooLarge => 413,
            RequestError::BadRequest => 400,
            RequestError::InternalLockFailure => 500,
        }
    }

    /// The HTTP status code that reports this failure: 4xx for a request
    /// that was refused, 5xx for a failure of the service itself.
    #[verifier::when_used_as_spec(spec_status)]
    pub fn status(self) -> (code: u16)
        ensures
            code == self.spec_status(),
    {
        match self {
            RequestError::PayloadTooLarge => 413,
            RequestError::BadRequest => 400,
            RequestError::InternalLockFailure => 500,
        }
    }
}

} // verus!
