//! Launch-minigame stage machine and the difficulty tiers. The aim, the
//! power sweep and its quality bands run on floating point with the host;
//! this machine decides which stage is live and when the launch locks.
use vstd::prelude::*;
use crate::input::{InputState, spec_neutral};

verus! {

/// AI difficulty tier, in declaration order.
#[derive(Clone, Copy, Debug, PartialEq, Eq, Structural)]
pub enum Difficulty {
    Easy,
    Normal,
    Hard,
    Ace,
}

/// The three minigame stages plus the terminal resolved state.
#[derive(Clone, Copy, Debug, PartialEq, Eq, Structural)]
pub enum Stage {
    Aim,
    SpinDir,
    Power,
    Locked,
}

/// What the host does for its part of a minigame tick.
#[derive(Clone, Copy, Debug, PartialEq, Eq, Structural)]
pub enum StageAction {
    /// Nothing this tick.
    Idle,
    /// Apply the tick's directions to heading and depth.
    Aim,
    /// The power stage began: start the sweep from zero.
    StartPower,
    /// Move the power marker one tick along its sweep.
    AdvancePower,
    /// Lock the launch at the marker's current value.
    Lock,
}

/// The minigame's stage, launch spin direction, and the previous tick's
/// input against which presses are edges.
#[derive(Clone, Copy, Debug, PartialEq, Eq, Structural)]
pub struct LaunchStages {
    pub stage: Stage,
    pub spin_dir: i8,
    pub prev: InputState,
}

/// A fresh minigame at Aim with the pick's spin direction.
pub open spec fn spec_new_stages(spin_dir: i8) -> LaunchStages {
    LaunchStages { stage: Stage::Aim, spin_dir, prev: spec_neutral() }
}

/// One tick: Dash (as a fresh press) moves Aim to SpinDir to Power and
/// locks in Power; Special flips the spin in SpinDir. Once locked nothing
/// changes, not even the remembered input.
pub open spec fn spec_stage_step(s: LaunchStages, input: InputState) -> (LaunchStages, StageAction) {
    let dash_edge = input.dash && !s.prev.dash;
    let special_edge = input.special && !s.prev.special;
    match s.stage {
        Stage::Locked => (s, StageAction::Idle),
        Stage::Aim => (
            LaunchStages { stage: if dash_edge { Stage::SpinDir } else { Stage::Aim }, prev: input, ..s },
            StageAction::Aim,
        ),
        Stage::SpinDir => {
            let spin = if special_edge { (-s.spin_dir) as i8 } else { s.spin_dir };
            if dash_edge {
                (LaunchStages { stage: Stage::Power, spin_dir: spin, prev: input }, StageAction::StartPower)
            } else {
                (LaunchStages { spin_dir: spin, prev: input, ..s }, StageAction::Idle)
            }
        },
        Stage::Power => if dash_edge {
            (LaunchStages { stage: Stage::Locked, prev: input, ..s }, StageAction::Lock)
        } else {
            (LaunchStages { prev: input, ..s }, StageAction::AdvancePower)
        },
    }
}

/// Stage order: Aim, SpinDir, Power, Locked.
pub open spec fn stage_rank(s: Stage) -> int {
    match s {
        Stage::Aim => 0,
        Stage::SpinDir => 1,
        Stage::Power => 2,
        Stage::Locked => 3,
    }
}

impl LaunchStages {
    /// A fresh minigame at Aim.
    pub fn new(spin_dir: i8) -> (s: LaunchStages)
        ensures
            s == spec_new_stages(spin_dir),
    {
        LaunchStages { stage: Stage::Aim, spin_dir, prev: InputState::default() }
    }

    /// Advance one tick, returning the host's part of it.
    pub fn step(&mut self, input: InputState) -> (a: StageAction)
        requires
            old(self).stage == Stage::SpinDir && input.special && !old(self).prev.special ==> old(self).spin_dir
                != i8::MIN,
        ensures
            (*final(self), a) == spec_stage_step(*old(self), input),
    {
        let dash_edge = input.dash && !self.prev.dash;
        let special_edge = input.special && !self.prev.special;
        match self.stage {
            Stage::Locked => StageAction::Idle,
            Stage::Aim => {
                if dash_edge {
                    self.stage = Stage::SpinDir;
                }
                self.prev = input;
                StageAction::Aim
            },
            Stage::SpinDir => {
                if special_edge {
                    self.spin_dir = -self.spin_dir;
                }
                self.prev = input;
                if dash_edge {
                    self.stage = Stage::Power;
                    StageAction::StartPower
                } else {
                    StageAction::Idle
                }
            },
            Stage::Power => {
                self.prev = input;
                if dash_edge {
                    self.stage = Stage::Locked;
                    StageAction::Lock
                } else {
                    StageAction::AdvancePower
                }
            },
        }
    }
}

/// Stages only move forward, one at a time, and only on a fresh Dash
/// press: holding Dash fires once.
pub proof fn law_stages_advance_in_order_on_fresh_presses(s: LaunchStages, input: InputState)
    ensures
        stage_rank(spec_stage_step(s, input).0.stage) == stage_rank(s.stage) || stage_rank(
            spec_stage_step(s, input).0.stage,
        ) == stage_rank(s.stage) + 1,
        spec_stage_step(s, input).0.stage != s.stage ==> input.dash && !s.prev.dash,
{
}

/// The spin direction changes only in the SpinDir stage, on a fresh Special
/// press (Special now, not on the previous tick), and then it reverses;
/// every unlocked tick remembers its input as the previous one. So Special
/// held across ticks flips the spin once, not once per tick.
pub proof fn law_spin_flips_once_per_fresh_special_press(s: LaunchStages, i1: InputState, i2: InputState)
    ensures
        s.stage == Stage::SpinDir && i1.special && !s.prev.special && s.spin_dir != i8::MIN ==> spec_stage_step(
            s,
            i1,
        ).0.spin_dir == -s.spin_dir,
        !(s.stage == Stage::SpinDir && i1.special && !s.prev.special) ==> spec_stage_step(s, i1).0.spin_dir
            == s.spin_dir,
        s.stage != Stage::Locked ==> spec_stage_step(s, i1).0.prev == i1,
        i1.special && i2.special ==> spec_stage_step(spec_stage_step(s, i1).0, i2).0.spin_dir == spec_stage_step(
            s,
            i1,
        ).0.spin_dir,
{
}

/// A locked minigame ignores every input and never changes again.
pub proof fn law_locked_step_is_a_no_op(s: LaunchStages, input: InputState)
    requires
        s.stage == Stage::Locked,
    ensures
        spec_stage_step(s, input) == (s, StageAction::Idle),
{
}

/// The launch locks exactly once: only the tick that leaves Power asks the
/// host to lock.
pub proof fn law_lock_is_reported_once(s: LaunchStages, input: InputState)
    ensures
        spec_stage_step(s, input).1 == StageAction::Lock <==> (s.stage == Stage::Power && spec_stage_step(
            s,
            input,
        ).0.stage == Stage::Locked),
{
}

} // verus!
