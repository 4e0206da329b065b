//! Deterministic pseudo-random numbers for reproducible datasets: the
//! SplitMix64 generator and the per-frame seeds derived from a dataset seed.
//! The same seed always yields the same sequence.
use vstd::prelude::*;

verus! {

/// Increment of the SplitMix64 state.
pub open spec fn golden_gamma() -> u64 {
    0x9e37_79b9_7f4a_7c15
}

/// `a + b` modulo 2^64.
pub open spec fn add_mod(a: u64, b: u64) -> u64 {
    ((a as nat + b as nat) % 0x1_0000_0000_0000_0000) as u64
}

/// `a * b` modulo 2^64.
pub open spec fn mul_mod(a: u64, b: u64) -> u64 {
    ((a as nat * b as nat) % 0x1_0000_0000_0000_0000) as u64
}

/// The SplitMix64 output function.
pub open spec fn mix64(z: u64) -> u64 {
    let z1 = mul_mod(z ^ (z >> 30u64), 0xbf58_476d_1ce4_e5b9);
    let z2 = mul_mod(z1 ^ (z1 >> 27u64), 0x94d0_49bb_1331_11eb);
    z2 ^ (z2 >> 31u64)
}

/// The SplitMix64 output function.
pub fn mix(z: u64) -> (r: u64)
    ensures
        r == mix64(z),
{
    let z1 = (z ^ (z >> 30)).wrapping_mul(0xbf58_476d_1ce4_e5b9);
    let z2 = (z1 ^ (z1 >> 27)).wrapping_mul(0x94d0_49bb_1331_11eb);
    z2 ^ (z2 >> 31)
}

/// SplitMix64 pseudo-random generator.
#[derive(Debug, Clone, Copy, PartialEq, Eq)]
pub struct SplitMix64 {
    state: u64,
}

impl SplitMix64 {
    pub closed spec fn state(&self) -> u64 {
        self.state
    }

    pub fn new(seed: u64) -> (rng: SplitMix64)
        ensures
            rng.state() == seed,
    {
        SplitMix64 { state: seed }
    }

    /// Advances the state by the golden gamma and returns its mix.
    pub fn next_u64(&mut self) -> (r: u64)
        ensures
            final(self).state() == add_mod(old(self).state(), golden_gamma()),
            r == mix64(final(self).state()),
    {
        self.state = self.state.wrapping_add(0x9e37_79b9_7f4a_7c15);
        mix(self.state)
    }

    /// The top 24 bits of the next output: a fraction of `2^24`, uniform in
    /// `0..2^24`.
    pub fn next_fraction_bits(&mut self) -> (r: u32)
        ensures
            final(self).state() == add_mod(old(self).state(), golden_gamma()),
            r == mix64(final(self).state()) >> 40u64,
            r < 0x100_0000,
    {
        let bits = self.next_u64();
        assert(bits >> 40u64 < 0x100_0000) by (bit_vector);
        (bits >> 40) as u32
    }
}

/// Seed of frame `frame_index` in a dataset seeded with `seed`.
pub open spec fn frame_seed_of(seed: u64, frame_index: u64) -> u64 {
    mix64(seed ^ mul_mod(frame_index, golden_gamma()))
}

/// Seed of frame `frame_index` in a dataset seeded with `seed`.
pub fn frame_seed(seed: u64, frame_index: u64) -> (r: u64)
    ensures
        r == frame_seed_of(seed, frame_index),
{
    mix(seed ^ frame_index.wrapping_mul(0x9e37_79b9_7f4a_7c15))
}

} // verus!
