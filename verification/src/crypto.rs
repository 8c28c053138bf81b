//! Address derivation: candidate scalar to public key to Base58Check address.
//!
//! The cryptographic primitives are outside services; each is reached through
//! one trusted wrapper whose result is named by an uninterpreted function of
//! the input bytes alone.  The assembly of the 25-byte address payload and
//! the skip of out-of-range scalars are this library's own verified logic.

use vstd::prelude::*;
use base58::ToBase58;
use ripemd160::Digest as RipemdDigest;
use sha2::Digest as ShaDigest;
use crate::encode::{be_bytes, is_valid_scalar, scalar_bytes};

verus! {

/// The 32-byte SHA-256 digest of a byte sequence.
pub uninterp spec fn sha256_of(b: Seq<u8>) -> Seq<u8>;

/// The 20-byte RIPEMD-160 digest of a byte sequence.
pub uninterp spec fn ripemd160_of(b: Seq<u8>) -> Seq<u8>;

/// The Base58 rendering of a byte sequence.
pub uninterp spec fn base58_of(b: Seq<u8>) -> Seq<char>;

/// The 33-byte compressed serialization of the public key of a valid
/// 32-byte private-key scalar.
pub uninterp spec fn pubkey_of(b: Seq<u8>) -> Seq<u8>;

/// Relies on sha2::Sha256::digest: the digest is 32 bytes and depends on the
/// input bytes alone.
#[verifier::external_body]
fn sha256_digest(data: &Vec<u8>) -> (r: Vec<u8>)
    ensures
        r@ == sha256_of(data@),
        r@.len() == 32,
{
    sha2::Sha256::digest(data.as_slice()).to_vec()
}

/// Relies on ripemd160::Ripemd160::digest: the digest is 20 bytes and
/// depends on the input bytes alone.
#[verifier::external_body]
fn ripemd160_digest(data: &Vec<u8>) -> (r: Vec<u8>)
    ensures
        r@ == ripemd160_of(data@),
        r@.len() == 20,
{
    ripemd160::Ripemd160::digest(data.as_slice()).to_vec()
}

/// Relies on base58::ToBase58::to_base58 for byte slices: the rendering
/// depends on the input bytes alone.
#[verifier::external_body]
fn encode_base58(data: &Vec<u8>) -> (r: String)
    ensures
        r@ == base58_of(data@),
{
    data.as_slice().to_base58()
}

/// Relies on secp256k1: SecretKey::from_secret_bytes returns Ok exactly when
/// the 32 bytes, read as a big-endian integer, are non-zero and below the
/// curve group order; PublicKey::from_secret_key and PublicKey::serialize
/// give the 33-byte compressed public key, a function of the scalar alone.
#[verifier::external_body]
fn derive_pubkey(scalar: &Vec<u8>) -> (r: Option<Vec<u8>>)
    requires
        scalar@.len() == 32,
    ensures
        r is Some <==> is_valid_scalar(scalar@),
        r matches Some(pk) ==> pk@ == pubkey_of(scalar@) && pk@.len() == 33,
{
    let mut buf = [0u8; 32];
    buf.copy_from_slice(scalar.as_slice());
    match secp256k1::SecretKey::from_secret_bytes(buf) {
        Ok(sk) => {
            let pk = secp256k1::PublicKey::from_secret_key(&sk);
            Some(pk.serialize().to_vec())
        },
        Err(_) => None,
    }
}

/// The 25-byte address payload of a serialized public key: version byte 0,
/// the RIPEMD-160 of the SHA-256 of the key, and as checksum the first four
/// bytes of the double SHA-256 of the first 21 bytes.
pub open spec fn address_payload(pk: Seq<u8>) -> Seq<u8> {
    let body = seq![0u8] + ripemd160_of(sha256_of(pk));
    body + sha256_of(sha256_of(body)).take(4)
}

/// The address of a serialized public key: its payload rendered in Base58.
pub open spec fn address_of_pubkey(pk: Seq<u8>) -> Seq<char> {
    base58_of(address_payload(pk))
}

/// The address derived from a valid 32-byte private-key scalar.
pub open spec fn address_of_scalar(b: Seq<u8>) -> Seq<char> {
    address_of_pubkey(pubkey_of(b))
}

/// The address derived from a range value, taken through its fixed-width
/// candidate-key buffer.
pub open spec fn address_of_value(v: u128) -> Seq<char> {
    address_of_scalar(be_bytes(v as int, 32))
}

/// Assembles and renders the Base58Check address of a serialized public key.
pub fn public_key_to_address(pubkey: &Vec<u8>) -> (r: String)
    ensures
        r@ == address_of_pubkey(pubkey@),
{
    let sha = sha256_digest(pubkey);
    let rip = ripemd160_digest(&sha);
    let mut payload: Vec<u8> = Vec::new();
    payload.push(0u8);
    let mut i: usize = 0;
    while i < rip.len()
        invariant
            rip@.len() == 20,
            i <= 20,
            payload@ == seq![0u8] + rip@.take(i as int),
        decreases rip@.len() - i,
    {
        payload.push(rip[i]);
        i = i + 1;
        proof {
            assert(payload@ =~= seq![0u8] + rip@.take(i as int));
        }
    }
    proof {
        assert(rip@.take(20) =~= rip@);
        assert(payload@ == seq![0u8] + ripemd160_of(sha256_of(pubkey@)));
    }
    let checksum = sha256_digest(&sha256_digest(&payload));
    payload.push(checksum[0]);
    payload.push(checksum[1]);
    payload.push(checksum[2]);
    payload.push(checksum[3]);
    proof {
        let body = seq![0u8] + ripemd160_of(sha256_of(pubkey@));
        assert(sha256_of(sha256_of(body)).take(4) =~= seq![
            checksum@[0],
            checksum@[1],
            checksum@[2],
            checksum@[3],
        ]);
        assert(payload@ =~= address_payload(pubkey@));
    }
    encode_base58(&payload)
}

/// Derives the address of a 16-byte key fragment right-aligned into the
/// fixed 32-byte buffer, or nothing when the padded buffer is not a valid
/// private key.
pub fn generate_key(private_key_bytes: &Vec<u8>) -> (r: Option<String>)
    requires
        private_key_bytes@.len() == 16,
    ensures
        r is Some <==> is_valid_scalar(Seq::new(16, |i: int| 0u8) + private_key_bytes@),
        r matches Some(a) ==> a@ == address_of_scalar(
            Seq::new(16, |i: int| 0u8) + private_key_bytes@,
        ),
{
    let mut extended: Vec<u8> = Vec::new();
    let mut i: usize = 0;
    while i < 16
        invariant
            i <= 16,
            extended@ =~= Seq::new(i as nat, |j: int| 0u8),
        decreases 16 - i,
    {
        extended.push(0u8);
        i = i + 1;
        proof {
            assert(extended@ =~= Seq::new(i as nat, |j: int| 0u8));
        }
    }
    let mut j: usize = 0;
    while j < private_key_bytes.len()
        invariant
            private_key_bytes@.len() == 16,
            j <= 16,
            extended@ == Seq::new(16, |k: int| 0u8) + private_key_bytes@.take(j as int),
        decreases private_key_bytes@.len() - j,
    {
        extended.push(private_key_bytes[j]);
        j = j + 1;
        proof {
            assert(extended@ =~= Seq::new(16, |k: int| 0u8) + private_key_bytes@.take(j as int));
        }
    }
    proof {
        assert(private_key_bytes@.take(16) =~= private_key_bytes@);
    }
    match derive_pubkey(&extended) {
        Some(pk) => Some(public_key_to_address(&pk)),
        None => None,
    }
}

/// Derives the address of a range value, or nothing when the value is zero:
/// a zero scalar is the one 128-bit value the curve rejects, and is skipped.
pub fn derive_address(v: u128) -> (r: Option<String>)
    ensures
        r is Some <==> v != 0,
        r matches Some(a) ==> a@ == address_of_value(v),
{
    let bytes = scalar_bytes(v);
    match derive_pubkey(&bytes) {
        Some(pk) => Some(public_key_to_address(&pk)),
        None => None,
    }
}

/// Address derivation is deterministic: identical input bytes always derive
/// the identical address, for the scalar as for the serialized public key.
/// Nothing is claimed of distinct inputs: that two distinct valid keys never
/// share an address is an assumption about the underlying primitives, relied
/// on operationally and not stated here.
pub proof fn lemma_derivation_deterministic(b1: Seq<u8>, b2: Seq<u8>)
    requires
        b1 == b2,
    ensures
        address_of_scalar(b1) == address_of_scalar(b2),
        address_of_pubkey(b1) == address_of_pubkey(b2),
{
}

} // verus!
