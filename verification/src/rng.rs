//! Deterministic `xorshift64*` generator with a `u64` of state. No wall
//! clock or OS entropy ever enters the simulation through here.
use vstd::prelude::*;

verus! {

/// Replacement for a `0` seed: xorshift is stuck at the all-zero state, so
/// `0` cannot be a valid state.
pub const ZERO_SEED_REPLACEMENT: u64 = 0x9E37_79B9_7F4A_7C15;

/// `xorshift64*` output multiplier.
pub const XORSHIFT_STAR_MULTIPLIER: u64 = 0x2545_F491_4F6C_DD1D;

/// Golden-ratio constant used to fold the round index into a match seed.
pub const ROUND_FOLD_CONSTANT: u64 = 0x9E37_79B9_7F4A_7C15;

/// The state a seed is turned into.
pub open spec fn spec_seed_state(seed: u64) -> u64 {
    if seed == 0 {
        ZERO_SEED_REPLACEMENT
    } else {
        seed
    }
}

/// The xorshift state transition.
pub open spec fn spec_step(x: u64) -> u64 {
    let a = x ^ (x >> 12u64);
    let b = a ^ (a << 25u64);
    b ^ (b >> 27u64)
}

/// The output drawn when the state moves to `next_state`.
pub open spec fn spec_output(next_state: u64) -> u64 {
    vstd::wrapping::u64_specs::wrapping_mul(next_state, XORSHIFT_STAR_MULTIPLIER)
}

/// The round-seed mixer: splitmix64-style finalizer over the match seed
/// folded with the round index.
pub open spec fn spec_mix_seed(match_seed: u64, round: u32) -> u64 {
    let z0 = match_seed ^ vstd::wrapping::u64_specs::wrapping_mul(round as u64, ROUND_FOLD_CONSTANT);
    let z1 = vstd::wrapping::u64_specs::wrapping_mul(z0 ^ (z0 >> 30u64), 0xBF58_476D_1CE4_E5B9);
    let z2 = vstd::wrapping::u64_specs::wrapping_mul(z1 ^ (z1 >> 27u64), 0x94D0_49BB_1331_11EB);
    z2 ^ (z2 >> 31u64)
}

/// A nonzero state stays nonzero: each xorshift stage is injective and
/// fixes zero.
pub proof fn lemma_step_nonzero(x: u64)
    requires
        x != 0,
    ensures
        spec_step(x) != 0,
{
    let a = x ^ (x >> 12u64);
    let b = a ^ (a << 25u64);
    assert(x != 0 ==> (x ^ (x >> 12u64)) != 0) by (bit_vector);
    assert(a != 0 ==> (a ^ (a << 25u64)) != 0) by (bit_vector);
    assert(b != 0 ==> (b ^ (b >> 27u64)) != 0) by (bit_vector);
}

/// `xorshift64*` generator. The state is never zero.
#[derive(Debug)]
pub struct Rng(u64);

impl View for Rng {
    type V = u64;

    closed spec fn view(&self) -> u64 {
        self.0
    }
}

impl Rng {
    #[verifier::type_invariant]
    closed spec fn state_nonzero(self) -> bool {
        self.0 != 0
    }

    /// Seed the generator; seed `0` is replaced by a fixed nonzero constant.
    pub fn new(seed: u64) -> (r: Rng)
        ensures
            r@ == spec_seed_state(seed),
            r@ != 0,
    {
        let s = if seed == 0 {
            ZERO_SEED_REPLACEMENT
        } else {
            seed
        };
        Rng(s)
    }

    /// The current state, for hashing a snapshot of the generator.
    pub fn state(&self) -> (s: u64)
        ensures
            s == self@,
            s != 0,
    {
        proof {
            use_type_invariant(self);
        }
        self.0
    }

    /// Next 64-bit output; advances the state.
    pub fn next_u64(&mut self) -> (v: u64)
        ensures
            final(self)@ == spec_step(old(self)@),
            final(self)@ != 0,
            v == spec_output(final(self)@),
    {
        proof {
            use_type_invariant(&*self);
            lemma_step_nonzero(self.0);
        }
        let mut x = self.0;
        x = x ^ (x >> 12u64);
        x = x ^ (x << 25u64);
        x = x ^ (x >> 27u64);
        self.0 = x;
        x.wrapping_mul(XORSHIFT_STAR_MULTIPLIER)
    }

    /// Next 32-bit output: the high half of a 64-bit draw.
    pub fn next_u32(&mut self) -> (v: u32)
        ensures
            final(self)@ == spec_step(old(self)@),
            v == (spec_output(final(self)@) >> 32u64) as u32,
    {
        (self.next_u64() >> 32u64) as u32
    }

    /// Uniform integer in `[lo, hi)`; returns `lo` (drawing nothing) when the
    /// range is empty or inverted.
    pub fn range_i32(&mut self, lo: i32, hi: i32) -> (r: i32)
        ensures
            hi <= lo ==> r == lo && final(self)@ == old(self)@,
            lo < hi ==> {
                &&& final(self)@ == spec_step(old(self)@)
                &&& lo <= r < hi
                &&& r == lo + spec_output(final(self)@) % ((hi - lo) as u64)
            },
    {
        if hi <= lo {
            return lo;
        }
        let span: u64 = (hi as i64 - lo as i64) as u64;
        let draw = self.next_u64();
        let off = draw % span;
        (lo as i64 + off as i64) as i32
    }
}

/// Round seed: a pure, reproducible mix of the match seed and round index.
pub fn mix_seed(match_seed: u64, round: u32) -> (z: u64)
    ensures
        z == spec_mix_seed(match_seed, round),
{
    let mut z = match_seed ^ (round as u64).wrapping_mul(ROUND_FOLD_CONSTANT);
    z = (z ^ (z >> 30u64)).wrapping_mul(0xBF58_476D_1CE4_E5B9);
    z = (z ^ (z >> 27u64)).wrapping_mul(0x94D0_49BB_1331_11EB);
    z ^ (z >> 31u64)
}

} // verus!
