//! The coordinator: partitions the keyspace, dispatches one worker per
//! non-degenerate chunk, aggregates the workers' outcomes, and resolves the
//! final result — including the explicit negative outcome, reached only
//! once every worker has exhausted its chunk without a match.

use vstd::prelude::*;
use crate::crypto::address_of_value;
use crate::range::{divide, is_division, lemma_division_disjoint, Chunk, KeyRange};
use crate::sampler::Sampler;
use crate::state::SearchState;
use crate::worker::{run_worker, WorkerOutcome};

verus! {

/// The final outcome of one search run.
pub enum SearchOutcome {
    /// A worker matched the target; its key is authoritative.
    Found { key: u128, address: String },
    /// Every worker exhausted its chunk and none matched.
    NotFound,
    /// A worker observed the found flag yet none reported a match; the run
    /// ended without a certificate either way.
    Stopped,
}

/// A search outcome together with the total count of tested candidates.
pub struct SearchReport {
    pub outcome: SearchOutcome,
    pub tested: u128,
}

/// Where the prefix of the first `i` chunks of a division ends: the start
/// of the next chunk, or one past the whole range once every chunk is in.
spec fn prefix_end(range: KeyRange, chunks: Seq<Chunk>, i: int) -> int {
    if i < chunks.len() {
        chunks[i].start as int
    } else {
        range.start + range.card()
    }
}

/// Aggregates per-worker outcomes, in chunk order: the first match wins and
/// is authoritative; the run is negative only when every worker exhausted
/// its chunk; otherwise the run merely stopped.
pub fn resolve_outcomes(outcomes: &Vec<WorkerOutcome>) -> (r: SearchOutcome)
    ensures
        (r is Found) <==> exists|i: int|
            0 <= i < outcomes@.len() && (#[trigger] outcomes@[i]) is Matched,
        r matches SearchOutcome::Found { key, address } ==> exists|i: int|
            {
                &&& 0 <= i < outcomes@.len()
                &&& (#[trigger] outcomes@[i]) matches WorkerOutcome::Matched { key: k, address: a }
                    && k == key && a@ == address@
                &&& forall|j: int| 0 <= j < i ==> !((#[trigger] outcomes@[j]) is Matched)
            },
        (r is NotFound) <==> (forall|i: int|
            0 <= i < outcomes@.len() ==> (#[trigger] outcomes@[i]) is Exhausted),
{
    let mut i: usize = 0;
    let mut all_exhausted: bool = true;
    while i < outcomes.len()
        invariant
            i <= outcomes@.len(),
            forall|j: int| 0 <= j < i ==> !((#[trigger] outcomes@[j]) is Matched),
            all_exhausted <==> (forall|j: int|
                0 <= j < i ==> (#[trigger] outcomes@[j]) is Exhausted),
        decreases outcomes@.len() - i,
    {
        match &outcomes[i] {
            WorkerOutcome::Matched { key, address } => {
                return SearchOutcome::Found { key: *key, address: address.clone() };
            },
            WorkerOutcome::Exhausted => {},
            WorkerOutcome::Stopped => {
                all_exhausted = false;
            },
        }
        i = i + 1;
    }
    if all_exhausted {
        SearchOutcome::NotFound
    } else {
        SearchOutcome::Stopped
    }
}

/// One whole search run, chunk after chunk: partitions the keyspace into
/// one chunk per worker, skips degenerate chunks, and stops at the first
/// match.  Exhaustively, a `NotFound` outcome certifies that no key of the
/// whole range derives the target, with every key tested exactly once; a
/// `Found` outcome carries the range's least matching key.
pub fn run_search(range: &KeyRange, workers: usize, target: &String, randomized: bool) -> (r:
    SearchReport)
    requires
        range.wf(),
        workers >= 1,
        range.card() <= u128::MAX,
    ensures
        r.outcome matches SearchOutcome::Found { key, address } ==> range.contains(key as int)
            && key != 0 && address@ == address_of_value(key) && address@ == target@,
        !randomized && r.outcome is NotFound ==> (forall|v: u128|
            range.contains(v as int) && v != 0 ==> #[trigger] address_of_value(v) != target@)
            && r.tested == range.card(),
        !randomized ==> (r.outcome matches SearchOutcome::Found { key, .. } ==> forall|v: u128|
            range.contains(v as int) && v < key && v != 0 ==> #[trigger] address_of_value(v)
                != target@),
        r.tested <= range.card(),
{
    let state = SearchState::new(target.clone());
    let chunks = divide(range, workers);
    let mut total: u128 = 0;
    let mut i: usize = 0;
    let mut matched: Option<(u128, String)> = None;
    let mut all_exhausted: bool = true;
    while i < chunks.len() && matched.is_none() && all_exhausted
        invariant
            range.wf(),
            range.card() <= u128::MAX,
            is_division(*range, chunks@.len() as int, chunks@),
            state.target@ == target@,
            i <= chunks@.len(),
            matched matches Some((k, a)) ==> range.contains(k as int) && k != 0 && a@
                == address_of_value(k) && a@ == target@,
            !randomized ==> (matched matches Some((k, _)) ==> forall|v: u128|
                range.start <= v < k && v != 0 ==> #[trigger] address_of_value(v) != target@),
            matched is None && all_exhausted ==> total == prefix_end(*range, chunks@, i as int)
                - range.start,
            matched is None && all_exhausted && !randomized ==> forall|v: u128|
                range.start <= v < prefix_end(*range, chunks@, i as int) && v != 0
                    ==> #[trigger] address_of_value(v) != target@,
            total <= range.card(),
        decreases chunks@.len() - i,
    {
        let chunk = chunks[i];
        proof {
            lemma_division_disjoint(*range, chunks@.len() as int, chunks@);
            assert(chunk.start + chunk.len <= range.start + range.card());
        }
        if chunk.len > 0 {
            let mut sampler = Sampler::new(randomized, &chunk);
            let report = run_worker(&chunk, &mut sampler, &state);
            total = total + report.tested;
            match report.outcome {
                WorkerOutcome::Matched { key, address } => {
                    matched = Some((key, address));
                },
                WorkerOutcome::Exhausted => {},
                WorkerOutcome::Stopped => {
                    all_exhausted = false;
                },
            }
        }
        i = i + 1;
    }
    match matched {
        Some((key, address)) => SearchReport {
            outcome: SearchOutcome::Found { key, address },
            tested: total,
        },
        None => {
            if all_exhausted {
                SearchReport { outcome: SearchOutcome::NotFound, tested: total }
            } else {
                SearchReport { outcome: SearchOutcome::Stopped, tested: total }
            }
        },
    }
}

} // verus!
