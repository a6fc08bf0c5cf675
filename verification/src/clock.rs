//! Points in time, read from the system clock; nothing is claimed of the
//! values the clock gives.

use vstd::prelude::*;

verus! {

#[verifier::external_type_specification]
#[verifier::external_body]
pub struct ExInstant(std::time::Instant);

#[verifier::external_type_specification]
#[verifier::external_body]
pub struct ExSystemTime(std::time::SystemTime);

/// Calls `Instant::now`.
#[verifier::external_body]
pub(crate) fn instant_now() -> (r: std::time::Instant) {
    std::time::Instant::now()
}

/// Calls `Instant::elapsed` and returns its whole seconds.
#[verifier::external_body]
pub(crate) fn elapsed_secs(since: &std::time::Instant) -> (r: u64) {
    since.elapsed().as_secs()
}

/// Calls `SystemTime::now`.
#[verifier::external_body]
pub(crate) fn system_now() -> (r: std::time::SystemTime) {
    std::time::SystemTime::now()
}

} // verus!
