//! Wall-clock readings for elapsed-time reporting and progress pacing.
//! A reading depends on when it is taken, so nothing is promised about
//! the values; the progress accounting states what it does with them.

use vstd::prelude::*;

verus! {

#[verifier::external_type_specification]
#[verifier::external_body]
pub struct ExInstant(std::time::Instant);

/// Relies on `std::time::Instant::now`: a reading of the monotonic clock.
#[verifier::external_body]
pub(crate) fn clock_now() -> (t: std::time::Instant) {
    std::time::Instant::now()
}

/// Relies on `std::time::Instant::elapsed` and
/// `std::time::Duration::as_millis`: the whole milliseconds since the
/// reading was taken, saturated into 64 bits.
#[verifier::external_body]
pub(crate) fn millis_since(start: &std::time::Instant) -> (ms: u64) {
    let all = start.elapsed().as_millis();
    if all > u64::MAX as u128 {
        u64::MAX
    } else {
        all as u64
    }
}

} // verus!
