//! Candidate generation for one chunk: either every value in strictly
//! increasing order, or uniform random draws filtered through the worker's
//! dedup filter.

use vstd::prelude::*;
use crate::dedup::DedupFilter;
use crate::encode::value_bytes;
use crate::range::Chunk;

verus! {

/// Relies on rand::random_range: a draw from the thread's generator lies
/// within the inclusive bounds; nothing more is assumed of a random value.
#[verifier::external_body]
fn random_in_range(lo: u128, hi: u128) -> (r: u128)
    requires
        lo <= hi,
    ensures
        lo <= r <= hi,
{
    rand::random_range(lo..=hi)
}

/// Produces the candidates a worker tests against one chunk, one per
/// outer-loop slot.
pub struct Sampler {
    /// Randomized mode draws uniformly; exhaustive mode sweeps in order.
    pub randomized: bool,
    /// The dedup filter of randomized mode; absent in exhaustive mode, for
    /// a single-value chunk, and when the filter's seed could not be drawn,
    /// in which case draws are accepted unfiltered.
    pub filter: Option<DedupFilter>,
}

impl Sampler {
    pub open spec fn is_exhaustive(self) -> bool {
        !self.randomized
    }

    /// A sampler for one chunk, with a dedup filter sized to the chunk's
    /// cardinality in randomized mode.
    pub fn new(randomized: bool, chunk: &Chunk) -> (s: Sampler)
        ensures
            s.is_exhaustive() <==> !randomized,
    {
        if randomized && chunk.len > 1 {
            Sampler { randomized: true, filter: DedupFilter::new(chunk.len) }
        } else {
            Sampler { randomized, filter: None }
        }
    }

    /// The candidate for one outer-loop slot.  Exhaustively it is the
    /// slot's own value, so the sweep visits each value of the chunk
    /// exactly once, in strictly increasing order.  Randomized, it is a
    /// uniform draw, redrawn while the dedup filter reports it seen; the
    /// retries are capped so the worker cannot stall on an unlucky chunk,
    /// and a draw past the cap is tested even though it may repeat one.
    pub fn candidate(&mut self, chunk: &Chunk, slot: u128) -> (c: u128)
        requires
            slot < chunk.len,
            chunk.start + chunk.len <= u128::MAX + 1,
        ensures
            chunk.contains(c as int),
            old(self).is_exhaustive() ==> c == chunk.start + slot,
            final(self).is_exhaustive() == old(self).is_exhaustive(),
    {
        if !self.randomized {
            return chunk.start + slot;
        }
        let hi = chunk.start + (chunk.len - 1);
        let mut c = random_in_range(chunk.start, hi);
        match self.filter.take() {
            None => c,
            Some(mut f) => {
                let mut tries: usize = 0;
                while tries < 1000
                    invariant_except_break
                        tries <= 1000,
                    invariant
                        chunk.start <= c <= hi,
                    ensures
                        chunk.start <= c <= hi,
                    decreases 1000 - tries,
                {
                    let bytes = value_bytes(c);
                    if !f.check_and_set(&bytes) {
                        break ;
                    }
                    c = random_in_range(chunk.start, hi);
                    tries = tries + 1;
                }
                self.filter = Some(f);
                c
            },
        }
    }
}

} // verus!
