//! Whole-day arithmetic on second-resolution timestamps.

use vstd::prelude::*;

verus! {

/// Seconds in one whole day.
pub const SECONDS_PER_DAY: u64 = 86400;

/// Whole days from `from` to `to`; zero when `to` lies before `from`.
pub open spec fn spec_days_elapsed(from: u64, to: u64) -> int {
    if to < from {
        0
    } else {
        (to - from) / (86400 as int)
    }
}

/// Whole days elapsed between two timestamps, saturating at zero instead of
/// underflowing when the clock appears to have run backwards.
pub fn days_elapsed(from: u64, to: u64) -> (r: u64)
    ensures
        r as int == spec_days_elapsed(from, to),
{
    if to < from {
        0
    } else {
        (to - from) / SECONDS_PER_DAY
    }
}

} // verus!
