//! The keyspace and its division into per-worker chunks.

use vstd::prelude::*;
use vstd::arithmetic::div_mod::lemma_fundamental_div_mod;
use vstd::arithmetic::mul::lemma_mul_inequality;

verus! {

/// An inclusive interval of scalar values, the keyspace of one search.
#[derive(Clone, Copy, Debug, PartialEq, Eq, Structural)]
pub struct KeyRange {
    pub start: u128,
    pub end: u128,
}

impl KeyRange {
    /// The interval is non-empty: `start <= end`.
    pub open spec fn wf(self) -> bool {
        self.start <= self.end
    }

    pub open spec fn contains(self, k: int) -> bool {
        self.start <= k <= self.end
    }

    /// Number of values in the interval.
    pub open spec fn card(self) -> int {
        self.end - self.start + 1
    }

    /// Builds a range, rejecting an inverted pair of bounds.
    pub fn new(start: u128, end: u128) -> (r: Option<KeyRange>)
        ensures
            r is Some <==> start <= end,
            r is Some ==> r.unwrap() == (KeyRange { start, end }),
    {
        if start <= end {
            Some(KeyRange { start, end })
        } else {
            None
        }
    }
}

/// A contiguous sub-interval of the keyspace assigned to one worker,
/// half-open: it covers `start`, `start + 1`, ..., `start + len - 1`.
/// A chunk with `len == 0` is degenerate and is skipped, never dispatched.
#[derive(Clone, Copy, Debug, PartialEq, Eq, Structural)]
pub struct Chunk {
    pub start: u128,
    pub len: u128,
}

impl Chunk {
    pub open spec fn contains(self, k: int) -> bool {
        self.start <= k < self.start + self.len
    }

    pub open spec fn is_empty(self) -> bool {
        self.len == 0
    }
}

/// What `divide` returns: `n` chunks laid end to end, the first starting at
/// `range.start`, all but the last of length `range.card() / n`, and the last
/// ending exactly at `range.end`, so it absorbs the remainder.
pub open spec fn is_division(range: KeyRange, n: int, chunks: Seq<Chunk>) -> bool {
    &&& chunks.len() == n
    &&& n >= 1
    &&& chunks[0].start == range.start
    &&& forall|i: int|
        0 <= i < n - 1 ==> (#[trigger] chunks[i]).start + chunks[i].len == chunks[i + 1].start
    &&& forall|i: int| 0 <= i < n - 1 ==> (#[trigger] chunks[i]).len == range.card() / n
    &&& chunks[n - 1].start + chunks[n - 1].len == range.start + range.card()
}

/// Splits `range` into `n` contiguous sub-ranges: each of the first `n - 1`
/// holds `card / n` values and the final one absorbs the remainder, so the
/// chunks cover `range` exactly.  When `n` exceeds the cardinality the first
/// `n - 1` chunks are degenerate and the last holds the whole range.
pub fn divide(range: &KeyRange, n: usize) -> (chunks: Vec<Chunk>)
    requires
        range.wf(),
        n >= 1,
        range.card() <= u128::MAX,
    ensures
        is_division(*range, n as int, chunks@),
        chunks@[n - 1].len >= range.card() / (n as int),
{
    let card: u128 = range.end - range.start + 1;
    let q: u128 = card / (n as u128);
    proof {
        lemma_fundamental_div_mod(card as int, n as int);
        assert(n as u128 as int == n as int);
        assert((n as int) * (q as int) <= card as int);
    }
    let mut chunks: Vec<Chunk> = Vec::new();
    let mut cur: u128 = range.start;
    let mut i: usize = 0;
    while i < n - 1
        invariant
            range.wf(),
            card == range.card(),
            q == card as int / (n as int),
            (n as int) * (q as int) <= card as int,
            i <= n - 1,
            chunks@.len() == i,
            cur == range.start + (i as int) * (q as int),
            (i as int) * (q as int) <= (n as int - 1) * (q as int),
            i > 0 ==> chunks@[0].start == range.start,
            forall|j: int|
                0 <= j < i - 1 ==> (#[trigger] chunks@[j]).start + chunks@[j].len
                    == chunks@[j + 1].start,
            forall|j: int| 0 <= j < i ==> (#[trigger] chunks@[j]).len == q,
            i > 0 ==> chunks@[i - 1].start + chunks@[i - 1].len == cur,
        decreases n - 1 - i,
    {
        proof {
            lemma_mul_inequality(i as int + 1, n as int - 1, q as int);
            lemma_mul_inequality(n as int - 1, n as int, q as int);
            assert((i as int + 1) * (q as int) == (i as int) * (q as int) + q as int)
                by (nonlinear_arith);
            assert((n as int - 1) * (q as int) + q as int == (n as int) * (q as int))
                by (nonlinear_arith);
            assert(cur as int + q as int <= range.end as int);
        }
        chunks.push(Chunk { start: cur, len: q });
        cur = cur + q;
        i = i + 1;
    }
    proof {
        lemma_mul_inequality(i as int, n as int, q as int);
        assert((n as int - 1) * (q as int) + q as int == (n as int) * (q as int))
            by (nonlinear_arith);
    }
    let last_len: u128 = card - (cur - range.start);
    chunks.push(Chunk { start: cur, len: last_len });
    chunks
}

/// The chunks of a division are ordered and pairwise disjoint: a chunk ends
/// no later than any later chunk begins, so no value lies in two of them.
pub proof fn lemma_division_disjoint(range: KeyRange, n: int, chunks: Seq<Chunk>)
    requires
        is_division(range, n, chunks),
    ensures
        forall|i: int, j: int|
            0 <= i < j < n ==> (#[trigger] chunks[i]).start + chunks[i].len
                <= (#[trigger] chunks[j]).start,
        forall|i: int, j: int, k: int|
            0 <= i < j < n ==> !(#[trigger] chunks[i].contains(k) && #[trigger] chunks[j].contains(
                k,
            )),
{
    assert forall|i: int, j: int| 0 <= i < j < n implies (#[trigger] chunks[i]).start
        + chunks[i].len <= (#[trigger] chunks[j]).start by {
        lemma_chain_ordered(chunks, i, j);
    }
}

/// Every value of `range` lies in some chunk of the division, and every
/// value of every chunk lies in `range`: the union of the chunks is exactly
/// the range.
pub proof fn lemma_division_covers(range: KeyRange, n: int, chunks: Seq<Chunk>)
    requires
        is_division(range, n, chunks),
    ensures
        forall|k: int|
            range.contains(k) <==> exists|i: int| 0 <= i < n && (#[trigger] chunks[i]).contains(k),
{
    assert forall|k: int| range.contains(k) implies exists|i: int|
        0 <= i < n && (#[trigger] chunks[i]).contains(k) by {
        lemma_chain_cover(chunks, k);
    }
    assert forall|k: int, i: int| 0 <= i < n && chunks[i].contains(k) implies range.contains(k) by {
        if i > 0 {
            lemma_chain_ordered(chunks, 0, i);
        }
        if i < n - 1 {
            lemma_chain_ordered(chunks, i, n - 1);
        }
    }
}

/// In a chained sequence of chunks, an earlier chunk ends no later than a
/// later one begins.
proof fn lemma_chain_ordered(chunks: Seq<Chunk>, i: int, j: int)
    requires
        0 <= i < j < chunks.len(),
        forall|m: int|
            0 <= m < chunks.len() - 1 ==> (#[trigger] chunks[m]).start + chunks[m].len
                == chunks[m + 1].start,
    ensures
        chunks[i].start + chunks[i].len <= chunks[j].start,
    decreases j - i,
{
    if j == i + 1 {
    } else {
        lemma_chain_ordered(chunks, i, j - 1);
    }
}

/// In a chained sequence of chunks, any value between the start of the first
/// chunk and the end of the last lies in some chunk.
proof fn lemma_chain_cover(chunks: Seq<Chunk>, k: int)
    requires
        chunks.len() >= 1,
        forall|m: int|
            0 <= m < chunks.len() - 1 ==> (#[trigger] chunks[m]).start + chunks[m].len
                == chunks[m + 1].start,
        chunks[0].start <= k,
        k < chunks[chunks.len() - 1].start + chunks[chunks.len() - 1].len,
    ensures
        exists|i: int| 0 <= i < chunks.len() && (#[trigger] chunks[i]).contains(k),
    decreases chunks.len(),
{
    if k < chunks[0].start + chunks[0].len {
        assert(chunks[0].contains(k));
    } else {
        let rest = chunks.subrange(1, chunks.len() as int);
        assert(chunks.len() >= 2);
        assert forall|m: int| 0 <= m < rest.len() - 1 implies (#[trigger] rest[m]).start
            + rest[m].len == rest[m + 1].start by {
            assert(rest[m] == chunks[m + 1]);
            assert(rest[m + 1] == chunks[m + 2]);
        }
        assert(rest[0].start == chunks[0].start + chunks[0].len);
        assert(rest[rest.len() - 1] == chunks[chunks.len() - 1]);
        lemma_chain_cover(rest, k);
        let i = choose|i: int| 0 <= i < rest.len() && (#[trigger] rest[i]).contains(k);
        assert(rest[i] == chunks[i + 1]);
        assert(chunks[i + 1].contains(k));
    }
}

} // verus!
