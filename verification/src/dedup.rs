//! The per-worker dedup filter of randomized mode: a probabilistic
//! membership structure sized to the chunk's cardinality, used to reject
//! recently seen random draws.
//!
//! The filter is modelled by the set of byte buffers recorded in it.  A
//! recorded buffer is always reported as seen again (no false negatives); an
//! unrecorded one may still be reported as seen (a false positive), which
//! costs only a skipped candidate, never a wrong result.

use vstd::prelude::*;
use bloomfilter::Bloom;

verus! {

#[verifier::external_type_specification]
#[verifier::external_body]
#[verifier::reject_recursive_types(T)]
pub struct ExBloom<T: ?Sized>(Bloom<T>);

/// The set of byte buffers recorded in a filter so far.
pub uninterp spec fn bloom_contents(b: Bloom<Vec<u8>>) -> Set<Seq<u8>>;

/// Relies on bloomfilter::Bloom::new: allocates a filter with the given
/// bitmap size in bytes over a fresh random seed, with nothing recorded yet;
/// it fails only when the system's randomness source does.
#[verifier::external_body]
fn bloom_new(bitmap_bytes: usize, items: usize) -> (r: Option<Bloom<Vec<u8>>>)
    requires
        1 <= bitmap_bytes <= usize::MAX / 8,
        items >= 1,
    ensures
        r matches Some(b) ==> bloom_contents(b) == Set::<Seq<u8>>::empty(),
{
    match Bloom::new(bitmap_bytes, items) {
        Ok(b) => Some(b),
        Err(_) => None,
    }
}

/// Relies on bloomfilter::Bloom::check_and_set: records the buffer and
/// reports whether it may have been recorded before; a buffer already
/// recorded is always reported as seen.
#[verifier::external_body]
fn bloom_check_and_set(b: &mut Bloom<Vec<u8>>, item: &Vec<u8>) -> (r: bool)
    ensures
        bloom_contents(*final(b)) == bloom_contents(*old(b)).insert(item@),
        bloom_contents(*old(b)).contains(item@) ==> r,
{
    b.check_and_set(item)
}

/// A worker's dedup filter, created at chunk-dispatch time and discarded
/// with the worker.
pub struct DedupFilter {
    bloom: Bloom<Vec<u8>>,
}

impl DedupFilter {
    /// The byte buffers recorded so far.
    pub closed spec fn contents(self) -> Set<Seq<u8>> {
        bloom_contents(self.bloom)
    }

    /// Builds a filter sized for the expected number of items: about ten
    /// bits per item, the sizing of a one-percent false-positive target.
    /// Returns nothing when the randomness source for the filter's seed
    /// fails; cardinalities beyond the address space are clamped.
    pub fn new(expected_items: u128) -> (r: Option<DedupFilter>)
        requires
            expected_items >= 1,
        ensures
            r matches Some(f) ==> f.contents() == Set::<Seq<u8>>::empty(),
    {
        let items: usize = if expected_items > usize::MAX as u128 {
            usize::MAX
        } else {
            expected_items as usize
        };
        let cap: usize = usize::MAX / 8;
        let fifth: usize = items / 5;
        let bytes: usize = if items >= cap - 1 || fifth >= cap - 1 - items {
            cap
        } else {
            items + fifth + 1
        };
        match bloom_new(bytes, items) {
            Some(b) => Some(DedupFilter { bloom: b }),
            None => None,
        }
    }

    /// Records a buffer and reports whether it had (probably) been seen:
    /// a recorded buffer is always reported seen again, an unrecorded one
    /// only by a false positive.
    pub fn check_and_set(&mut self, item: &Vec<u8>) -> (r: bool)
        ensures
            final(self).contents() == old(self).contents().insert(item@),
            old(self).contents().contains(item@) ==> r,
    {
        bloom_check_and_set(&mut self.bloom, item)
    }
}

} // verus!
