//! Time as the pipeline sees it: readings of a monotonic clock, in nanoseconds
//! since a moment that the caller picks once and keeps.

use vstd::prelude::*;

verus! {

/// Nanoseconds in one microsecond.
pub const NANOS_PER_MICRO: u128 = 1000;

/// Whole microseconds in a span of nanoseconds; the remainder is cut off.
pub open spec fn micros_of(nanos: u128) -> u128 {
    nanos / NANOS_PER_MICRO
}

/// Whole microseconds in `nanos` nanoseconds.
pub fn whole_micros(nanos: u128) -> (micros: u128)
    ensures
        micros == micros_of(nanos),
{
    nanos / NANOS_PER_MICRO
}

/// The time between two readings of a clock that may not go backwards: a reading
/// that lies before the earlier one counts as no time at all.
pub open spec fn elapsed_between(earlier: u128, later: u128) -> u128 {
    if later >= earlier {
        (later - earlier) as u128
    } else {
        0
    }
}

/// Time between two clock readings, zero if the second lies before the first.
pub fn elapsed(earlier: u128, later: u128) -> (nanos: u128)
    ensures
        nanos == elapsed_between(earlier, later),
{
    if later >= earlier {
        later - earlier
    } else {
        0
    }
}

} // verus!
