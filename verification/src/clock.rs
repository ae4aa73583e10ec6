//! Trusted declarations for wall-clock timing of a search.

use vstd::prelude::*;

verus! {

#[verifier::external_type_specification]
#[verifier::external_body]
pub struct ExInstant(std::time::Instant);

/// Relies on `std::time::Instant::now`.  The result depends on the
/// clock, so nothing is assumed of it.
#[verifier::external_body]
pub(crate) fn clock_now() -> std::time::Instant {
    std::time::Instant::now()
}

/// Relies on `Instant::elapsed`: milliseconds since the instant, clamped
/// into `u64`.  The result depends on the clock, so nothing is assumed
/// of it.
#[verifier::external_body]
pub(crate) fn millis_since(start: &std::time::Instant) -> u64 {
    let ms = start.elapsed().as_millis();
    if ms > u64::MAX as u128 {
        u64::MAX
    } else {
        ms as u64
    }
}

} // verus!
