//! The progress reporter's calculation: from two samples of the shared
//! tested-count and the fixed interval between them, the delta and the
//! approximate throughput.  The periodic sampling loop itself is I/O and
//! lives with the caller.

use vstd::prelude::*;

verus! {

/// One throughput estimate.
pub struct ThroughputSample {
    /// The cumulative tested-count at this sample.
    pub total: u64,
    /// How many candidates were counted since the previous sample.
    pub delta: u64,
    /// Approximate candidates per second over the interval.
    pub rate: u64,
}

/// Computes one estimate from the previous and the current sample of the
/// shared tested-count.  The count is monotone, but a reader is not owed
/// that by the atomics, so a seemingly backward pair yields a zero delta
/// rather than an underflow.
pub fn throughput(prev_total: u64, current_total: u64, interval_secs: u64) -> (r: ThroughputSample)
    requires
        interval_secs >= 1,
    ensures
        r.total == current_total,
        r.delta == (if current_total >= prev_total {
            current_total - prev_total
        } else {
            0int
        }),
        r.rate == r.delta as int / interval_secs as int,
{
    let delta: u64 = if current_total >= prev_total {
        current_total - prev_total
    } else {
        0
    };
    ThroughputSample { total: current_total, delta, rate: delta / interval_secs }
}

} // verus!
