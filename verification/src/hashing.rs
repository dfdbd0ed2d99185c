//! One-way digest and constant-time comparison primitives.
//!
//! The password module stores credentials only as salted digests, and the
//! token service tags every issued token with a keyed digest; both lean on
//! the fold defined here.  Credential comparisons must not exit early on the
//! first mismatching byte, so the byte comparison below examines every byte
//! of equal-length inputs unconditionally.

use vstd::prelude::*;

verus! {

/// Offset basis mixed into every seed so that an empty input does not
/// digest to the bare seed.
pub const DIGEST_OFFSET: u64 = 0xcbf2_9ce4_8422_2325;

/// Multiplier applied after absorbing each byte.
pub const DIGEST_PRIME: u64 = 0x0000_0100_0000_01b3;

/// Mathematical meaning of the digest: starting from the seed, fold in one
/// byte at a time, multiplying by `DIGEST_PRIME` modulo 2^64 after each.
pub open spec fn digest64_spec(seed: u64, bytes: Seq<u8>) -> u64
    decreases bytes.len(),
{
    if bytes.len() == 0 {
        seed
    } else {
        vstd::wrapping::u64_specs::wrapping_mul(
            digest64_spec(seed, bytes.drop_last()) ^ (bytes.last() as u64),
            DIGEST_PRIME,
        )
    }
}

/// Folds `bytes` into `seed`, byte by byte.
pub fn digest64(seed: u64, bytes: &[u8]) -> (h: u64)
    ensures
        h == digest64_spec(seed, bytes@),
{
    let mut h = seed;
    let mut i: usize = 0;
    while i < bytes.len()
        invariant
            0 <= i <= bytes@.len(),
            h == digest64_spec(seed, bytes@.take(i as int)),
        decreases bytes@.len() - i,
    {
        h = (h ^ (bytes[i] as u64)).wrapping_mul(DIGEST_PRIME);
        proof {
            assert(bytes@.take(i as int + 1).drop_last() =~= bytes@.take(i as int));
            assert(bytes@.take(i as int + 1).last() == bytes@[i as int]);
        }
        i = i + 1;
    }
    proof {
        assert(bytes@.take(bytes@.len() as int) =~= bytes@);
    }
    h
}

/// Compares two byte strings without exiting early on a mismatch: after the
/// length check, every byte of both inputs is folded into one accumulator,
/// and only the accumulator decides the answer.
pub fn ct_bytes_eq(a: &[u8], b: &[u8]) -> (r: bool)
    ensures
        r == (a@ == b@),
{
    if a.len() != b.len() {
        return false;
    }
    let mut diff: u8 = 0;
    let mut i: usize = 0;
    while i < a.len()
        invariant
            a@.len() == b@.len(),
            0 <= i <= a@.len(),
            (diff == 0) <==> (forall|j: int| 0 <= j < i ==> a@[j] == b@[j]),
        decreases a@.len() - i,
    {
        let x = a[i];
        let y = b[i];
        let d = x ^ y;
        proof {
            assert((x ^ y) == 0 <==> x == y) by (bit_vector);
            assert((diff | d) == 0 <==> (diff == 0 && d == 0)) by (bit_vector);
        }
        diff = diff | d;
        i = i + 1;
    }
    if diff == 0 {
        proof {
            assert(a@ =~= b@);
        }
        true
    } else {
        false
    }
}

} // verus!
