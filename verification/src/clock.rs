//! Elapsed time in nanoseconds, accumulated step by step.
use vstd::prelude::*;

verus! {

/// The clock after `dt` more nanoseconds. It stops at the largest value it can
/// hold.
pub open spec fn clock_after(timestamp: u64, dt: nat) -> u64 {
    if timestamp + dt > u64::MAX {
        u64::MAX
    } else {
        (timestamp + dt) as u64
    }
}

/// Adds `dt` to `timestamp`.
pub fn advance(timestamp: u64, dt: u64) -> (later: u64)
    ensures
        later == clock_after(timestamp, dt as nat),
{
    timestamp.saturating_add(dt)
}

/// The clock adds up: two steps in a row leave it where one step of their
/// joint length leaves it.
pub proof fn lemma_clock_adds_up(timestamp: u64, dt1: nat, dt2: nat)
    ensures
        clock_after(clock_after(timestamp, dt1), dt2) == clock_after(timestamp, dt1 + dt2),
{
}

/// The clock never runs backwards.
pub proof fn lemma_clock_is_monotonic(timestamp: u64, dt: nat)
    ensures
        clock_after(timestamp, dt) >= timestamp,
        clock_after(timestamp, 0) == timestamp,
{
}

} // verus!
