//! Deterministic request fingerprints.
//!
//! A fetch request is deduplicated by a fingerprint of its parameters (plus
//! a caller-supplied tick, which forces a re-fetch of otherwise identical
//! parameters).  The fingerprint is a sixty-four bit fold in the style of
//! FNV-1a, fully specified so two equal requests provably fingerprint
//! equally.

use vstd::prelude::*;

use vstd::string::StringSliceAdditionalSpecFns;

verus! {

/// fold seed
pub const FNV_OFFSET: u64 = 0xcbf2_9ce4_8422_2325;

/// fold multiplier
pub const FNV_PRIME: u64 = 0x0000_0100_0000_01b3;

/// One fold step: mix a word into the accumulator.
pub open spec fn spec_mix(h: u64, w: u64) -> u64 {
    vstd::wrapping::u64_specs::wrapping_mul(h ^ w, FNV_PRIME)
}

/// Mixes one word into the accumulator.
pub fn mix(h: u64, w: u64) -> (r: u64)
    ensures
        r == spec_mix(h, w),
{
    (h ^ w).wrapping_mul(FNV_PRIME)
}

/// Folding a whole byte sequence into the accumulator, one byte per step.
pub open spec fn spec_mix_bytes(h: u64, bs: Seq<u8>) -> u64
    decreases bs.len(),
{
    if bs.len() == 0 {
        h
    } else {
        spec_mix_bytes(spec_mix(h, bs[0] as u64), bs.drop_first())
    }
}

/// Mixes every byte of `bytes` into the accumulator.
pub fn mix_bytes(h: u64, bytes: &[u8]) -> (r: u64)
    ensures
        r == spec_mix_bytes(h, bytes@),
{
    let mut acc = h;
    let mut i: usize = 0;
    proof {
        assert(bytes@.skip(0) =~= bytes@);
    }
    while i < bytes.len()
        invariant
            0 <= i <= bytes@.len(),
            spec_mix_bytes(acc, bytes@.skip(i as int)) == spec_mix_bytes(h, bytes@),
        decreases bytes@.len() - i,
    {
        proof {
            assert(bytes@.skip(i as int).drop_first() =~= bytes@.skip(i as int + 1));
            assert(bytes@.skip(i as int)[0] == bytes@[i as int]);
        }
        acc = mix(acc, bytes[i] as u64);
        i = i + 1;
    }
    proof {
        assert(bytes@.skip(i as int) =~= Seq::<u8>::empty());
    }
    acc
}

/// Folding a character sequence by its UTF-8 bytes.
pub open spec fn spec_mix_chars(h: u64, s: Seq<char>) -> u64 {
    spec_mix_bytes(h, vstd::utf8::encode_utf8(s))
}

/// Mixes a string's UTF-8 bytes into the accumulator.
pub fn mix_str(h: u64, s: &str) -> (r: u64)
    ensures
        r == spec_mix_chars(h, s@),
{
    mix_bytes(h, s.as_bytes())
}

} // verus!
