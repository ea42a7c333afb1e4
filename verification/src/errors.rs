//! The error taxonomy of the library's own operations.

use vstd::prelude::*;

verus! {

/// What can go wrong while building requests or mapping responses.
#[derive(Clone, Copy, Debug, PartialEq, Eq, Structural)]
pub enum InaError {
    /// The configured base endpoint is not a well-formed absolute URL.
    InvalidEndpoint,
    /// A response body is not valid JSON or does not match the envelope.
    MalformedResponse,
    /// One of the four concurrent statistics sub-fetches failed.
    AggregationFailure,
}

impl InaError {
    /// A short description, in place of a `Display` impl.
    pub fn message(&self) -> (r: &'static str)
        ensures
            self is InvalidEndpoint ==> r@ == "base endpoint is not a valid absolute URL"@,
            self is MalformedResponse ==> r@ == "response body does not match the expected JSON shape"@,
            self is AggregationFailure ==> r@ == "failed to get cumulative stats"@,
    {
        match self {
            InaError::InvalidEndpoint => "base endpoint is not a valid absolute URL",
            InaError::MalformedResponse => "response body does not match the expected JSON shape",
            InaError::AggregationFailure => "failed to get cumulative stats",
        }
    }
}

} // verus!
