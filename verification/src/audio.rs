//! Audio scheduling: the music tracker's row timing and note choices, the
//! oscillator's noise LFSR, envelope stages, and the per-render cue batch.
//! Synthesis itself (floating-point oscillators, envelopes and mixing)
//! belongs to the host.
use vstd::prelude::*;

pub mod engine;
pub mod env;
pub mod mixer;
pub mod osc;
pub mod tracker;

verus! {

/// Fixed mono sample rate.
pub const SAMPLE_RATE: u32 = 44_100;

/// Whole samples in `ms` milliseconds, truncated.
pub open spec fn spec_ms_to_samples(ms: u32) -> int {
    (ms * SAMPLE_RATE) / 1000
}

/// Convert a millisecond duration to whole samples, truncating.
pub fn ms_to_samples(ms: u32) -> (n: u32)
    requires
        ms * SAMPLE_RATE <= u32::MAX,
    ensures
        n == spec_ms_to_samples(ms),
{
    (ms * SAMPLE_RATE) / 1000
}

} // verus!
