//! Fixed-width candidate-key buffers: a range value is right-aligned into a
//! 32-byte big-endian buffer with leading zero bytes.

use vstd::prelude::*;
use vstd::arithmetic::div_mod::{lemma_mod_breakdown, lemma_small_mod};
use vstd::arithmetic::power::{lemma_pow_increases, lemma_pow_positive, pow};

verus! {

/// The value of a byte sequence read as a big-endian integer.
pub open spec fn be_val(b: Seq<u8>) -> int
    decreases b.len(),
{
    if b.len() == 0 {
        0
    } else {
        be_val(b.drop_last()) * 256 + b.last()
    }
}

/// The `n`-byte big-endian encoding of `v % 256^n`.
pub open spec fn be_bytes(v: int, n: nat) -> Seq<u8>
    decreases n,
{
    if n == 0 {
        Seq::empty()
    } else {
        be_bytes(v / 256, (n - 1) as nat).push((v % 256) as u8)
    }
}

/// The group order of the secp256k1 curve: a byte buffer is a valid private
/// key exactly when its big-endian value is non-zero and below this bound.
pub open spec fn curve_order() -> int {
    0xFFFFFFFFFFFFFFFFFFFFFFFFFFFFFFFEBAAEDCE6AF48A03BBFD25E8CD0364141int
}

/// A 32-byte buffer that the curve accepts as a private key.
pub open spec fn is_valid_scalar(b: Seq<u8>) -> bool {
    &&& b.len() == 32
    &&& 0 < be_val(b) < curve_order()
}

/// Reading back the `n`-byte big-endian encoding of `v` yields `v % 256^n`.
pub proof fn lemma_be_val_of_be_bytes(v: int, n: nat)
    requires
        v >= 0,
    ensures
        be_bytes(v, n).len() == n,
        be_val(be_bytes(v, n)) == v % pow(256, n),
    decreases n,
{
    if n == 0 {
        assert(pow(256, 0) == 1) by {
            reveal(pow);
        }
        assert(v % 1 == 0);
    } else {
        let tail = be_bytes(v / 256, (n - 1) as nat);
        lemma_be_val_of_be_bytes(v / 256, (n - 1) as nat);
        assert(be_bytes(v, n).drop_last() =~= tail);
        lemma_pow_positive(256, (n - 1) as nat);
        lemma_mod_breakdown(v, 256, pow(256, (n - 1) as nat));
        assert(pow(256, n) == 256 * pow(256, (n - 1) as nat)) by {
            reveal(pow);
        }
        assert(be_val(be_bytes(v, n)) == be_val(tail) * 256 + (v % 256));
        assert(be_val(tail) * 256 == 256 * ((v / 256) % pow(256, (n - 1) as nat)))
            by (nonlinear_arith)
            requires be_val(tail) == (v / 256) % pow(256, (n - 1) as nat);
    }
}

fn be_bytes_exec(v: u128, n: usize) -> (r: Vec<u8>)
    ensures
        r@ == be_bytes(v as int, n as nat),
    decreases n,
{
    if n == 0 {
        let r: Vec<u8> = Vec::new();
        proof {
            assert(r@ =~= be_bytes(v as int, 0));
        }
        r
    } else {
        let mut r = be_bytes_exec(v / 256, n - 1);
        r.push((v % 256) as u8);
        proof {
            assert(r@ =~= be_bytes(v as int, n as nat));
        }
        r
    }
}

/// The 16-byte big-endian buffer of a range value, the form in which random
/// draws are recorded in the dedup filter.
pub fn value_bytes(v: u128) -> (r: Vec<u8>)
    ensures
        r@ == be_bytes(v as int, 16),
{
    be_bytes_exec(v, 16)
}

/// Forms the fixed-width candidate key for a range value: the value's
/// big-endian bytes right-aligned in a 32-byte buffer under leading zeros.
/// The buffer is a valid private key exactly when the value is non-zero,
/// since every 128-bit value lies below the curve order.
pub fn scalar_bytes(v: u128) -> (r: Vec<u8>)
    ensures
        r@.len() == 32,
        r@ == be_bytes(v as int, 32),
        be_val(r@) == v as int,
        is_valid_scalar(r@) <==> v != 0,
{
    let r = be_bytes_exec(v, 32);
    proof {
        lemma_be_val_of_be_bytes(v as int, 32);
        assert(pow(256, 16) == 0x100000000000000000000000000000000int) by {
            reveal_with_fuel(pow, 17);
        }
        lemma_pow_increases(256, 16, 32);
        lemma_small_mod(v as nat, pow(256, 32) as nat);
        assert(u128::MAX < curve_order());
    }
    r
}

} // verus!
