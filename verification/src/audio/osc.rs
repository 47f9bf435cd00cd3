//! Oscillator waveform shapes and the 15-bit noise LFSR. The oscillator's
//! phase accumulator and sample shaping run on floating point with the
//! host.
use vstd::prelude::*;

verus! {

/// Oscillator waveform. `Square`'s `duty` is the fraction `duty / 256` of
/// the period spent high.
#[derive(Clone, Copy, Debug, PartialEq, Eq, Structural)]
pub enum Waveform {
    Square { duty: u8 },
    Saw,
    Triangle,
    Sine,
    Noise,
}

/// The LFSR keeps 15 bits.
pub const NOISE_MASK: u16 = 0x7FFF;

/// Every trigger reseeds the LFSR to this nonzero state.
pub const NOISE_SEED: u16 = 1;

/// One Fibonacci-LFSR step (polynomial `x^15 + x^14 + 1`): bit 14 XOR
/// bit 13 is shifted into bit 0.
pub open spec fn spec_lfsr_step(state: u16) -> u16 {
    (((state << 1u16) | (((state >> 14u16) & 1) ^ ((state >> 13u16) & 1))) & NOISE_MASK) as u16
}

/// One LFSR step.
pub fn lfsr_step(state: u16) -> (next: u16)
    ensures
        next == spec_lfsr_step(state),
        next <= NOISE_MASK,
{
    let bit14 = (state >> 14u16) & 1;
    let bit13 = (state >> 13u16) & 1;
    let feedback = bit14 ^ bit13;
    let next = ((state << 1u16) | feedback) & NOISE_MASK;
    assert(next <= NOISE_MASK) by (bit_vector)
        requires
            next == ((state << 1u16) | feedback) & NOISE_MASK,
            NOISE_MASK == 0x7FFFu16,
    ;
    next
}

/// A nonzero 15-bit state never steps to zero, and every step stays within
/// 15 bits: the noise never locks up in the all-zero state.
pub proof fn law_lfsr_never_reaches_zero(state: u16)
    requires
        0 < state <= NOISE_MASK,
    ensures
        0 < spec_lfsr_step(state) <= NOISE_MASK,
{
    assert(0 < (((state << 1u16) | (((state >> 14u16) & 1) ^ ((state >> 13u16) & 1))) & 0x7FFFu16) <= 0x7FFFu16)
        by (bit_vector)
        requires
            0 < state <= 0x7FFFu16,
    ;
}

} // verus!
