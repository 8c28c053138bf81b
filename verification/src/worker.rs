//! One worker: drives a sampler over one chunk, derives each candidate's
//! address, compares it to the target, updates the shared state, and
//! reports how its run ended.

use vstd::prelude::*;
use crate::crypto::address_of_value;
use crate::crypto::derive_address;
use crate::range::Chunk;
use crate::sampler::Sampler;
use crate::state::SearchState;

verus! {

/// How a worker's run over its chunk ended.
pub enum WorkerOutcome {
    /// A candidate's derived address equals the target, byte for byte; the
    /// matching key is published with its address.
    Matched { key: u128, address: String },
    /// Every outer-loop slot of the chunk was used and nothing matched.
    Exhausted,
    /// The worker observed the found flag already raised and stopped early.
    Stopped,
}

/// A worker's outcome together with its counter bookkeeping.
pub struct WorkerReport {
    pub outcome: WorkerOutcome,
    /// Candidates this worker tested.  A matching candidate stops the
    /// worker before it is counted: only non-matches flow through the
    /// batched counter.
    pub tested: u128,
    /// What this worker flushed into the shared tested-count: the tested
    /// count rounded down to whole batches of 1000, so the shared count
    /// undercounts this worker by fewer than one batch at any instant.
    pub flushed: u128,
}

/// What one outer-loop slot of a worker did.
pub enum StepOutcome {
    /// The found flag was observed raised; no candidate was obtained.
    Observed,
    /// The slot's candidate matched the target; the flag has been raised.
    Matched { key: u128, address: String },
    /// The slot's candidate did not match (or was skipped as an invalid
    /// scalar) and was counted.
    Tested,
}

/// One outer-loop slot: poll the found flag, and unless it is raised obtain
/// the slot's candidate, derive and compare its address, and keep the
/// batched counter.  The contract carries the bounded-staleness law: a step
/// that observes the flag contributes nothing further to the shared
/// tested-count, and any single step flushes at most one batch of 1000, so
/// a worker still in flight when the flag goes up adds at most the one
/// batch of the slot it is completing before its next poll stops it.
pub fn worker_step(
    chunk: &Chunk,
    sampler: &mut Sampler,
    state: &SearchState,
    slot: u128,
    tested: &mut u128,
    flushed: &mut u128,
) -> (r: StepOutcome)
    requires
        slot < chunk.len,
        chunk.start + chunk.len <= u128::MAX + 1,
        *old(tested) < u128::MAX,
        *old(flushed) == *old(tested) - *old(tested) % 1000,
    ensures
        final(sampler).is_exhaustive() == old(sampler).is_exhaustive(),
        r is Observed ==> *final(tested) == *old(tested) && *final(flushed) == *old(flushed),
        r is Matched ==> *final(tested) == *old(tested) && *final(flushed) == *old(flushed),
        !(r is Observed) && !(r is Matched) ==> *final(tested) == *old(tested) + 1,
        *final(flushed) <= *old(flushed) + 1000,
        *final(flushed) == *final(tested) - *final(tested) % 1000,
        r matches StepOutcome::Matched { key, address } ==> chunk.contains(key as int) && key != 0
            && address@ == address_of_value(key) && address@ == state.target@,
        old(sampler).is_exhaustive() ==> (r matches StepOutcome::Matched { key, .. } ==> key
            == chunk.start + slot),
        old(sampler).is_exhaustive() && !(r is Observed) && !(r is Matched) ==> (chunk.start + slot
            != 0 ==> address_of_value((chunk.start + slot) as u128) != state.target@),
{
    if state.is_found() {
        return StepOutcome::Observed;
    }
    let c = sampler.candidate(chunk, slot);
    match derive_address(c) {
        Some(address) => {
            if address == state.target {
                state.mark_found();
                return StepOutcome::Matched { key: c, address };
            }
        },
        None => {},
    }
    *tested = *tested + 1;
    if *tested % 1000 == 0 {
        state.add_tested(1000);
        *flushed = *flushed + 1000;
    }
    StepOutcome::Tested
}

/// Drives one sampler over one chunk.  A match is reported only when the
/// derived address is equal to the target, byte for byte; exhaustively, an
/// `Exhausted` outcome certifies that no key of the chunk matches, and a
/// `Matched` outcome carries the chunk's least matching key.
pub fn run_worker(chunk: &Chunk, sampler: &mut Sampler, state: &SearchState) -> (r: WorkerReport)
    requires
        chunk.start + chunk.len <= u128::MAX + 1,
    ensures
        r.flushed == r.tested - r.tested % 1000,
        r.tested <= chunk.len,
        r.outcome matches WorkerOutcome::Matched { key, address } ==> chunk.contains(key as int)
            && key != 0 && address@ == address_of_value(key) && address@ == state.target@,
        r.outcome is Exhausted ==> r.tested == chunk.len,
        old(sampler).is_exhaustive() && r.outcome is Exhausted ==> forall|v: u128|
            chunk.contains(v as int) && v != 0 ==> #[trigger] address_of_value(v)
                != state.target@,
        old(sampler).is_exhaustive() ==> (r.outcome matches WorkerOutcome::Matched { key, .. }
            ==> forall|v: u128|
            chunk.contains(v as int) && v < key && v != 0 ==> #[trigger] address_of_value(v)
                != state.target@),
{
    let ghost exhaustive = sampler.is_exhaustive();
    let mut tested: u128 = 0;
    let mut flushed: u128 = 0;
    let mut slot: u128 = 0;
    while slot < chunk.len
        invariant
            chunk.start + chunk.len <= u128::MAX + 1,
            slot <= chunk.len,
            tested == slot,
            flushed == tested - tested % 1000,
            exhaustive == old(sampler).is_exhaustive(),
            sampler.is_exhaustive() == exhaustive,
            exhaustive ==> forall|v: u128|
                chunk.start <= v < chunk.start + slot && v != 0 ==> #[trigger] address_of_value(v)
                    != state.target@,
        decreases chunk.len - slot,
    {
        let step = worker_step(chunk, sampler, state, slot, &mut tested, &mut flushed);
        match step {
            StepOutcome::Observed => {
                return WorkerReport { outcome: WorkerOutcome::Stopped, tested, flushed };
            },
            StepOutcome::Matched { key, address } => {
                return WorkerReport {
                    outcome: WorkerOutcome::Matched { key, address },
                    tested,
                    flushed,
                };
            },
            StepOutcome::Tested => {},
        }
        slot = slot + 1;
    }
    WorkerReport { outcome: WorkerOutcome::Exhausted, tested, flushed }
}

} // verus!
