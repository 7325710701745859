//! Simulated time. Durations are whole microseconds, and a run of ticks is
//! given by the sequence of their lengths.
use vstd::prelude::*;

verus! {

/// Microseconds in one second.
pub const MICROS_PER_SECOND: u64 = 1_000_000;

/// Sum of a sequence of tick lengths.
pub open spec fn total_time(dts: Seq<u64>) -> int
    decreases dts.len(),
{
    if dts.len() == 0 { 0 } else { total_time(dts.drop_last()) + dts.last() }
}

/// Tick lengths add up to no less than zero.
pub proof fn lemma_total_time_nonneg(dts: Seq<u64>)
    ensures
        total_time(dts) >= 0,
    decreases dts.len(),
{
    if dts.len() > 0 {
        lemma_total_time_nonneg(dts.drop_last());
    }
}

} // verus!
