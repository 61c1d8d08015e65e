//! The closed set of failures a request can end in, and the HTTP status each
//! one is reported as.

use vstd::prelude::*;

verus! {

/// Why a request was turned away.
#[derive(Clone, Copy, Debug, PartialEq, Eq, Structural)]
pub enum Failure {
    /// Missing, invalid or expired token, or a bad login.
    Unauthenticated,
    /// A valid token whose role is not sufficient.
    Forbidden,
    /// Malformed input, a path-traversal attempt or oversized dimensions.
    BadRequest,
    /// The payload exceeds the byte ceiling.
    PayloadTooLarge,
    /// The payload is not a decodable image.
    UnsupportedMediaType,
    /// The named object does not exist.
    NotFound,
    /// An I/O step or the signing primitive failed.
    InternalError,
}

/// Status reported for a request that succeeded.
pub const STATUS_OK: u16 = 200;

/// The HTTP status code that stands for `failure`.
pub open spec fn status_of(failure: Failure) -> u16 {
    match failure {
        Failure::Unauthenticated => 401,
        Failure::Forbidden => 403,
        Failure::BadRequest => 400,
        Failure::PayloadTooLarge => 413,
        Failure::UnsupportedMediaType => 415,
        Failure::NotFound => 404,
        Failure::InternalError => 500,
    }
}

impl Failure {
    /// The HTTP status code this failure is reported as.
    pub fn status_code(&self) -> (code: u16)
        ensures
            code == status_of(*self),
    {
        match self {
            Failure::Unauthenticated => 401,
            Failure::Forbidden => 403,
            Failure::BadRequest => 400,
            Failure::PayloadTooLarge => 413,
            Failure::UnsupportedMediaType => 415,
            Failure::NotFound => 404,
            Failure::InternalError => 500,
        }
    }
}

/// The status of a finished request: 200 on success, the failure's code
/// otherwise.
pub open spec fn outcome_status<T>(outcome: Result<T, Failure>) -> u16 {
    match outcome {
        Ok(_) => STATUS_OK,
        Err(failure) => status_of(failure),
    }
}

/// Distinct failures are reported with distinct codes, and none of them is
/// the success code.
pub proof fn status_codes_are_distinct(a: Failure, b: Failure)
    ensures
        status_of(a) == status_of(b) ==> a == b,
        status_of(a) != STATUS_OK,
{
}

} // verus!
