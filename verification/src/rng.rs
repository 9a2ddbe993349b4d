//! Xoshiro256++ pseudo-random generator.
//!
//! Every source of randomness inside the render path (transistor mismatch,
//! thermal drift, chorus detuning, dither noise) draws from a private,
//! seeded instance of this generator, so the render thread never touches a
//! shared or global source. The generator is pure integer state, and both
//! the seeding routine and the output step are specified exactly.

use vstd::prelude::*;

verus! {

/// Increment of the SplitMix64 state used to expand a 64-bit seed.
pub const SPLITMIX_GAMMA: u64 = 0x9e3779b97f4a7c15;

/// First multiplier of the SplitMix64 finalizer.
pub const SPLITMIX_MUL_1: u64 = 0xbf58476d1ce4e5b9;

/// Second multiplier of the SplitMix64 finalizer.
pub const SPLITMIX_MUL_2: u64 = 0x94d049bb133111eb;

/// Xoshiro256++ state: four 64-bit words.
#[derive(Clone, Copy)]
pub struct Xoshiro256PlusPlus {
    pub s0: u64,
    pub s1: u64,
    pub s2: u64,
    pub s3: u64,
}

/// `x` rotated left by `k` bits, for `0 < k < 64`.
pub open spec fn spec_rotate_left_u64(x: u64, k: u64) -> u64
    recommends
        0 < k < 64,
{
    (x << k) | (x >> (64 - k))
}

/// One advance of the SplitMix64 state.
pub open spec fn splitmix_advance(s: u64) -> u64 {
    vstd::wrapping::u64_specs::wrapping_add(s, SPLITMIX_GAMMA)
}

/// The SplitMix64 output finalizer applied to a state word.
pub open spec fn splitmix_mix(s: u64) -> u64 {
    let z1 = vstd::wrapping::u64_specs::wrapping_mul(s ^ (s >> 30), SPLITMIX_MUL_1);
    let z2 = vstd::wrapping::u64_specs::wrapping_mul(z1 ^ (z1 >> 27), SPLITMIX_MUL_2);
    z2 ^ (z2 >> 31)
}

/// The SplitMix64 state after `i` advances from `seed`.
pub open spec fn splitmix_state(seed: u64, i: nat) -> u64
    decreases i,
{
    if i == 0 {
        seed
    } else {
        splitmix_advance(splitmix_state(seed, (i - 1) as nat))
    }
}

/// The `i`-th word (0-based) that seeding from `seed` produces.
pub open spec fn seed_word(seed: u64, i: nat) -> u64 {
    splitmix_mix(splitmix_state(seed, i + 1))
}

/// The whole state that seeding from `seed` produces.
pub open spec fn spec_seeded(seed: u64) -> Xoshiro256PlusPlus {
    Xoshiro256PlusPlus {
        s0: seed_word(seed, 0),
        s1: seed_word(seed, 1),
        s2: seed_word(seed, 2),
        s3: seed_word(seed, 3),
    }
}

impl Xoshiro256PlusPlus {
    /// The 32-bit output drawn from the current state.
    pub open spec fn spec_output(self) -> u32 {
        vstd::wrapping::u64_specs::wrapping_add(
            spec_rotate_left_u64(vstd::wrapping::u64_specs::wrapping_add(self.s0, self.s3), 23),
            self.s0,
        ) as u32
    }

    /// The state after one output step.
    pub open spec fn spec_stepped(self) -> Xoshiro256PlusPlus {
        let t = self.s1 << 17;
        let s2a = self.s2 ^ self.s0;
        let s3a = self.s3 ^ self.s1;
        let s1a = self.s1 ^ s2a;
        let s0a = self.s0 ^ s3a;
        Xoshiro256PlusPlus { s0: s0a, s1: s1a, s2: s2a ^ t, s3: spec_rotate_left_u64(s3a, 45) }
    }

    /// Expands a 64-bit seed into the four state words with SplitMix64.
    pub fn seed_from_u64(seed: u64) -> (r: Xoshiro256PlusPlus)
        ensures
            r == spec_seeded(seed),
    {
        let a1 = seed.wrapping_add(SPLITMIX_GAMMA);
        let a2 = a1.wrapping_add(SPLITMIX_GAMMA);
        let a3 = a2.wrapping_add(SPLITMIX_GAMMA);
        let a4 = a3.wrapping_add(SPLITMIX_GAMMA);
        proof {
            assert(splitmix_state(seed, 0) == seed);
            assert(splitmix_state(seed, 1) == a1);
            assert(splitmix_state(seed, 2) == a2);
            assert(splitmix_state(seed, 3) == a3);
            assert(splitmix_state(seed, 4) == a4);
        }
        Xoshiro256PlusPlus {
            s0: splitmix_finalize(a1),
            s1: splitmix_finalize(a2),
            s2: splitmix_finalize(a3),
            s3: splitmix_finalize(a4),
        }
    }

    /// Advances the state once and returns the 32-bit output.
    pub fn next_u32(&mut self) -> (r: u32)
        ensures
            r == old(self).spec_output(),
            *final(self) == (old(self).spec_stepped()),
    {
        let sum = self.s0.wrapping_add(self.s3);
        let result = rotate_left_u64(sum, 23).wrapping_add(self.s0);
        let t = self.s1 << 17u64;
        self.s2 = self.s2 ^ self.s0;
        self.s3 = self.s3 ^ self.s1;
        self.s1 = self.s1 ^ self.s2;
        self.s0 = self.s0 ^ self.s3;
        self.s2 = self.s2 ^ t;
        self.s3 = rotate_left_u64(self.s3, 45);
        result as u32
    }
}

/// The SplitMix64 output finalizer.
fn splitmix_finalize(s: u64) -> (r: u64)
    ensures
        r == splitmix_mix(s),
{
    let z1 = (s ^ (s >> 30u64)).wrapping_mul(SPLITMIX_MUL_1);
    let z2 = (z1 ^ (z1 >> 27u64)).wrapping_mul(SPLITMIX_MUL_2);
    z2 ^ (z2 >> 31u64)
}

/// `x` rotated left by `k` bits.
fn rotate_left_u64(x: u64, k: u64) -> (r: u64)
    requires
        0 < k < 64,
    ensures
        r == spec_rotate_left_u64(x, k),
{
    (x << k) | (x >> (64 - k))
}

} // verus!
