//! Monotonic clock readings, used for retry delays and timeout measurement.

use vstd::prelude::*;

verus! {

/// Relies on `std::time::Instant`: an opaque monotonic clock reading.
#[verifier::external_type_specification]
#[verifier::external_body]
pub struct ExInstant(std::time::Instant);

/// Relies on `std::time::Instant::now` to take a monotonic clock reading.
/// The reading depends on when the call happens, so nothing is promised of
/// it.
#[verifier::external_body]
pub(crate) fn clock_now() -> std::time::Instant {
    std::time::Instant::now()
}

/// Relies on `std::time::Instant::elapsed` for the wall-clock time since
/// `start`, in milliseconds, saturated at `u64::MAX`. The value depends on
/// when the call happens, so nothing is promised of it.
#[verifier::external_body]
pub(crate) fn millis_since(start: &std::time::Instant) -> u64 {
    let millis = start.elapsed().as_millis();
    if millis > u64::MAX as u128 {
        u64::MAX
    } else {
        millis as u64
    }
}

/// Blocks the calling thread until at least `ms` milliseconds have passed,
/// by polling the monotonic clock.
///
/// The spin is capped at `u64::MAX` clock polls so that the loop provably
/// terminates; each poll takes nonzero time, so the clock test ends the wait
/// first for every reachable `ms`.
pub fn pause_millis(ms: u64) {
    let start = clock_now();
    let mut fuel: u64 = u64::MAX;
    loop
        decreases fuel,
    {
        if millis_since(&start) >= ms || fuel == 0 {
            break;
        }
        fuel = fuel - 1;
    }
}

} // verus!
