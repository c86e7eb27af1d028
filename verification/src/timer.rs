//! Timestamp arithmetic for the free-running hardware counter. The counter
//! itself is read by the unverified shell; this module turns a raw tick count
//! into the monotonic millisecond timestamp the rest of the firmware uses,
//! and proves that the conversion preserves the counter's ordering.

use vstd::prelude::*;
use vstd::arithmetic::div_mod::lemma_div_is_ordered;

verus! {

/// The millisecond timestamp a raw counter value stands for, at a counter
/// frequency of `ticks_per_ms` ticks per millisecond.
pub open spec fn spec_millis_of_ticks(ticks: u64, ticks_per_ms: u64) -> u64
    recommends
        ticks_per_ms > 0,
{
    ((ticks as nat) / (ticks_per_ms as nat)) as u64
}

/// Converts a raw counter value into milliseconds.
pub fn ticks_to_millis(ticks: u64, ticks_per_ms: u64) -> (ms: u64)
    requires
        ticks_per_ms > 0,
    ensures
        ms == spec_millis_of_ticks(ticks, ticks_per_ms),
{
    ticks / ticks_per_ms
}

/// Timestamps are non-decreasing: as long as the counter does not wrap, two
/// consecutive reads `t1 <= t2` convert to timestamps in the same order.
pub proof fn lemma_timestamps_nondecreasing(t1: u64, t2: u64, ticks_per_ms: u64)
    requires
        ticks_per_ms > 0,
        t1 <= t2,
    ensures
        spec_millis_of_ticks(t1, ticks_per_ms) <= spec_millis_of_ticks(t2, ticks_per_ms),
{
    lemma_div_is_ordered(t1 as int, t2 as int, ticks_per_ms as int);
}

} // verus!
