//! The wall clock, read through `chrono`.

use vstd::prelude::*;

verus! {

/// The current time in whole seconds since the Unix epoch, as
/// `chrono::Utc::now().timestamp()` reports it.
///
/// Trusted, and nothing is claimed of the value: callers are verified for
/// every `i64`. `chrono` itself stops the process when the system clock
/// stands before the epoch.
#[verifier::external_body]
pub(crate) fn unix_now() -> i64 {
    chrono::Utc::now().timestamp()
}

} // verus!
