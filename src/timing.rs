//! Pacing: how long to wait so that interrupts come at the screen's rate.

use vstd::prelude::*;

verus! {

/// The screen refreshes this many times a second, with two interrupts each time.
pub const REFRESH_HZ: u64 = 60;

/// The time one interrupt interval takes, in nanoseconds.
pub const INTERVAL_NANOS: u64 = 1_000_000_000 / (2 * REFRESH_HZ);

pub const NANOS_PER_MILLI: u64 = 1_000_000;

/// Whole milliseconds still to wait when `elapsed_nanos` have passed since
/// the last interrupt was due; zero once a full interval has passed.
pub fn pacing_delay_millis(elapsed_nanos: u64) -> (r: u64)
    ensures
        elapsed_nanos < INTERVAL_NANOS ==> r == (INTERVAL_NANOS - elapsed_nanos) / (
        NANOS_PER_MILLI as int),
        elapsed_nanos >= INTERVAL_NANOS ==> r == 0,
{
    if elapsed_nanos < INTERVAL_NANOS {
        (INTERVAL_NANOS - elapsed_nanos) / NANOS_PER_MILLI
    } else {
        0
    }
}

} // verus!
