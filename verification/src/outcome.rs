use vstd::prelude::*;
use vstd::bytes::{spec_u128_from_le_bytes, u128_from_le_bytes};
use vstd::slice::slice_subrange;

verus! {

/// The SHA-256 digest of a byte sequence. Named, not written out: the engine
/// relies on the host's hashing primitive to compute it, and states nothing
/// about its value beyond its length.
pub uninterp spec fn digest_of(s: Seq<u8>) -> Seq<u8>;

/// The outcome derived from a signature: hash it, read the two 16-byte
/// halves of the digest as little-endian 128-bit integers, add them with
/// wraparound, and reduce modulo 100.
pub open spec fn spec_outcome(sig: Seq<u8>) -> u128 {
    let d = digest_of(sig);
    let lower = spec_u128_from_le_bytes(d.subrange(0, 16));
    let upper = spec_u128_from_le_bytes(d.subrange(16, 32));
    vstd::wrapping::u128_specs::wrapping_add(lower, upper) % 100
}

/// Relies on solana_program::hash::hash: the 32-byte SHA-256 digest of the
/// input, a function of the input bytes alone.
#[verifier::external_body]
fn sha256(val: &[u8]) -> (r: [u8; 32])
    ensures
        r@ == digest_of(val@),
        r@.len() == 32,
{
    solana_program::hash::hash(val).to_bytes()
}

/// Derives the pseudo-random outcome bound to a signature. Any party can
/// recompute it from the signature bytes alone, and identical bytes always
/// yield the identical outcome.
pub fn derive_outcome(sig: &[u8]) -> (r: u8)
    ensures
        r as u128 == spec_outcome(sig@),
        r < 100,
{
    let digest = sha256(sig);
    let lower = u128_from_le_bytes(slice_subrange(digest.as_slice(), 0, 16));
    let upper = u128_from_le_bytes(slice_subrange(digest.as_slice(), 16, 32));
    let sum = lower.wrapping_add(upper);
    (sum % 100) as u8
}

/// Determinism law: any two results of `derive_outcome` on the same
/// signature bytes agree, and every outcome lies in [0, 100).
pub proof fn lemma_outcome_deterministic(sig: Seq<u8>, r1: u8, r2: u8)
    requires
        r1 as u128 == spec_outcome(sig),
        r2 as u128 == spec_outcome(sig),
    ensures
        r1 == r2,
        r1 < 100,
{
}

} // verus!
