//! The pipeline specialization key: a bitset over the rendering features
//! `{PERSPECTIVE, TRANSPARENT_MAIN_PASS, HDR}` whose top three bits carry
//! `log2(msaa_samples)`, supporting sample counts 1 through 128.

use vstd::prelude::*;
use vstd::std_specs::bits::u32_trailing_zeros;

verus! {

/// Bit for the perspective feature.
pub const PERSPECTIVE: u32 = 1u32;

/// Bit for rendering in the transparent main pass.
pub const TRANSPARENT_MAIN_PASS: u32 = 2u32;

/// Bit for an HDR view target.
pub const HDR: u32 = 4u32;

/// Mask of the three-bit MSAA field before shifting.
pub const MSAA_MASK_BITS: u32 = 0b111u32;

/// The MSAA field sits in the top three bits of the key.
pub const MSAA_SHIFT_BITS: u32 = 29u32;

/// Compact description of a pipeline variant: feature bits in the low bits,
/// `log2(msaa_samples)` in the top three.
#[derive(Clone, Copy, PartialEq, Eq, Structural, Debug)]
pub struct PolylinePipelineKey {
    pub bits: u32,
}

/// The key that [`PolylinePipelineKey::from_msaa_samples`] builds.
pub open spec fn spec_from_msaa_samples(msaa_samples: u32) -> u32 {
    (u32_trailing_zeros(msaa_samples) & MSAA_MASK_BITS) << MSAA_SHIFT_BITS
}

/// The sample count that [`PolylinePipelineKey::msaa_samples`] reads back.
pub open spec fn spec_msaa_samples(bits: u32) -> u32 {
    1u32 << ((bits >> MSAA_SHIFT_BITS) & MSAA_MASK_BITS)
}

impl PolylinePipelineKey {
    /// The key with no feature set and a one-sample MSAA field.
    pub fn none() -> (k: Self)
        ensures
            k.bits == 0,
    {
        PolylinePipelineKey { bits: 0 }
    }

    /// Interprets raw bits as a key, keeping every bit.
    pub fn from_bits_retain(bits: u32) -> (k: Self)
        ensures
            k.bits == bits,
    {
        PolylinePipelineKey { bits }
    }

    /// The raw bits of the key.
    pub fn bits(&self) -> (bits: u32)
        ensures
            bits == self.bits,
    {
        self.bits
    }

    /// Whether every bit of `other` is set in `self`.
    pub open spec fn spec_contains(self, other: Self) -> bool {
        self.bits & other.bits == other.bits
    }

    /// Whether every bit of `other` is set in `self`.
    pub fn contains(&self, other: Self) -> (r: bool)
        ensures
            r == self.spec_contains(other),
    {
        self.bits & other.bits == other.bits
    }

    /// The key holding the bits of both operands.
    pub fn union(self, other: Self) -> (k: Self)
        ensures
            k.bits == (self.bits | other.bits),
    {
        PolylinePipelineKey { bits: self.bits | other.bits }
    }

    /// Packs `log2(msaa_samples)` into the top three bits of a key.
    pub fn from_msaa_samples(msaa_samples: u32) -> (k: Self)
        ensures
            k.bits == spec_from_msaa_samples(msaa_samples),
    {
        let msaa_bits = (msaa_samples.trailing_zeros() & MSAA_MASK_BITS) << MSAA_SHIFT_BITS;
        PolylinePipelineKey { bits: msaa_bits }
    }

    /// Reads the sample count back out of the top three bits.
    pub fn msaa_samples(&self) -> (n: u32)
        ensures
            n == spec_msaa_samples(self.bits),
    {
        proof {
            let b = self.bits;
            assert((b >> MSAA_SHIFT_BITS) & MSAA_MASK_BITS < 32) by (bit_vector);
        }
        1u32 << ((self.bits >> MSAA_SHIFT_BITS) & MSAA_MASK_BITS)
    }

    /// The key for an HDR or non-HDR view target.
    pub fn from_hdr(hdr: bool) -> (k: Self)
        ensures
            hdr ==> k.bits == HDR,
            !hdr ==> k.bits == 0,
    {
        if hdr {
            PolylinePipelineKey { bits: HDR }
        } else {
            PolylinePipelineKey { bits: 0 }
        }
    }
}

/// A power of two below `2^8` has exactly its exponent as trailing zeros.
proof fn lemma_trailing_zeros_of_power(k: u32)
    requires
        k < 8,
    ensures
        u32_trailing_zeros(1u32 << k) == k,
{
    let n = 1u32 << k;
    assert(n != 0) by (bit_vector)
        requires
            n == 1u32 << k && k < 8,
    ;
    vstd::std_specs::bits::axiom_u32_trailing_zeros(n);
    let t = u32_trailing_zeros(n);
    if t < k {
        assert((n >> t) & 1u32 == 1u32);
        assert((n >> t) & 1u32 == 0u32) by (bit_vector)
            requires
                n == 1u32 << k && t < k && k < 8,
        ;
        assert(false);
    }
    if t > k {
        assert((n >> k) & 1u32 == 0u32);
        assert((n >> k) & 1u32 == 1u32) by (bit_vector)
            requires
                n == 1u32 << k && k < 8,
        ;
        assert(false);
    }
}

/// Pipeline key round trip: for every supported sample count `2^k` with
/// `k < 8` — that is, 1, 2, 4, up to 128 — packing the count into a key and
/// reading it back returns the same count.
pub proof fn lemma_msaa_key_round_trip(k: u32)
    requires
        k < 8,
    ensures
        spec_msaa_samples(spec_from_msaa_samples(1u32 << k)) == 1u32 << k,
{
    lemma_trailing_zeros_of_power(k);
    assert(1u32 << ((((k & 0b111u32) << 29u32) >> 29u32) & 0b111u32) == 1u32 << k) by (bit_vector)
        requires
            k < 8,
    ;
}

} // verus!
