//! Integer-valued pieces of the simulation model: the six top stats and the
//! round-ending outcome.
use vstd::prelude::*;

verus! {

/// Base dash cooldown, in tenths of a step.
pub const DASH_COOLDOWN_BASE_TENTHS: u32 = 720;

/// Cooldown shortening per point of SPD, in tenths of a step.
pub const DASH_COOLDOWN_SPD_TENTHS: u32 = 4;

/// Six 0..=100 stats; the methods derive the sim quantities they map to.
#[derive(Clone, Copy, Debug, PartialEq, Eq, Structural, Default)]
pub struct Stats {
    pub atk: u8,
    pub def: u8,
    pub sta: u8,
    pub wgt: u8,
    pub spd: u8,
    pub mtr: u8,
}

/// Dash cooldown in whole steps: `72 - 0.4*SPD`, truncated, never below 1.
pub open spec fn spec_dash_cooldown_steps(spd: u8) -> u16 {
    let tenths = DASH_COOLDOWN_BASE_TENTHS as int - DASH_COOLDOWN_SPD_TENTHS as int * spd as int;
    if tenths < 10 {
        1u16
    } else {
        (tenths / 10) as u16
    }
}

impl Stats {
    /// Sum of the six stats.
    pub open spec fn total(self) -> int {
        self.atk + self.def + self.sta + self.wgt + self.spd + self.mtr
    }

    /// Dash cooldown in whole sim steps: `72 - 0.4*SPD`, truncated toward
    /// zero and floored at 1 step so a dash is never re-available in the
    /// step it was thrown. Computed exactly in tenths of a step.
    pub fn dash_cooldown_steps(&self) -> (steps: u16)
        ensures
            steps == spec_dash_cooldown_steps(self.spd),
            1 <= steps <= 72,
    {
        let spd_part: u32 = DASH_COOLDOWN_SPD_TENTHS * (self.spd as u32);
        if spd_part + 10 > DASH_COOLDOWN_BASE_TENTHS {
            1
        } else {
            ((DASH_COOLDOWN_BASE_TENTHS - spd_part) / 10) as u16
        }
    }
}

/// What the world step does this step.
#[derive(Clone, Copy, Debug, PartialEq, Eq, Structural)]
pub enum StepGate {
    /// The round is decided: the step changes nothing.
    Decided,
    /// Hit-stop is counting down: this step only spends one of its steps.
    HitStop,
    /// The step body runs.
    Run,
}

/// Whether a world step runs: nothing happens once the round is decided;
/// otherwise a pending hit-stop swallows the step and counts down by one;
/// otherwise the step body runs. Returns that choice and the hit-stop count
/// after it.
pub fn step_gate(decided: bool, hitstop: u8) -> (r: (StepGate, u8))
    ensures
        r == (if decided {
            (StepGate::Decided, hitstop)
        } else if hitstop > 0 {
            (StepGate::HitStop, (hitstop - 1) as u8)
        } else {
            (StepGate::Run, 0u8)
        }),
{
    if decided {
        (StepGate::Decided, hitstop)
    } else if hitstop > 0 {
        (StepGate::HitStop, hitstop - 1)
    } else {
        (StepGate::Run, 0)
    }
}

/// Round-ending condition.
#[derive(Clone, Copy, Debug, PartialEq, Eq, Structural)]
pub enum Outcome {
    RingOut { loser: u8 },
    StaminaOut { loser: u8 },
    Simultaneous,
}

} // verus!
