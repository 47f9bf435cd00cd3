//! Envelope stages, counted in samples. The host tracks the envelope's
//! floating-point level; this stage machine decides which segment is
//! running and when it ends.
use vstd::prelude::*;

verus! {

/// Envelope stage.
#[derive(Clone, Copy, Debug, PartialEq, Eq, Structural)]
pub enum EnvState {
    Idle,
    Attack,
    Decay,
    Sustain,
    Release,
    Done,
}

/// Segment lengths in samples; `holds` says whether the sustain level is
/// above zero (a zero sustain makes the envelope a self-ending one-shot).
#[derive(Clone, Copy, Debug, PartialEq, Eq, Structural)]
pub struct EnvTiming {
    pub attack: u32,
    pub decay: u32,
    pub release: u32,
    pub holds: bool,
}

/// The stage machine: timing, stage, and samples left in the stage.
#[derive(Clone, Copy, Debug, PartialEq, Eq, Structural)]
pub struct EnvStage {
    pub timing: EnvTiming,
    pub state: EnvState,
    pub remaining: u32,
}

/// A timed stage has samples left.
pub open spec fn env_wf(e: EnvStage) -> bool {
    (e.state is Attack || e.state is Decay || e.state is Release) ==> e.remaining > 0
}

/// Where decay hands off: Sustain when the level holds, else Done.
pub open spec fn spec_after_decay(t: EnvTiming) -> EnvState {
    if t.holds {
        EnvState::Sustain
    } else {
        EnvState::Done
    }
}

/// Start of the decay segment (skipped when it has no length).
pub open spec fn spec_begin_decay(e: EnvStage) -> EnvStage {
    if e.timing.decay == 0 {
        EnvStage { state: spec_after_decay(e.timing), ..e }
    } else {
        EnvStage { state: EnvState::Decay, remaining: e.timing.decay, ..e }
    }
}

/// (Re)start with `t`: Attack, or straight on to decay when there is no
/// attack.
pub open spec fn spec_trigger(e: EnvStage, t: EnvTiming) -> EnvStage {
    let e1 = EnvStage { timing: t, ..e };
    if t.attack == 0 {
        spec_begin_decay(e1)
    } else {
        EnvStage { state: EnvState::Attack, remaining: t.attack, ..e1 }
    }
}

/// Release from wherever the envelope is; immediate Done without a release
/// segment.
pub open spec fn spec_note_off(e: EnvStage) -> EnvStage {
    if e.timing.release == 0 {
        EnvStage { state: EnvState::Done, ..e }
    } else {
        EnvStage { state: EnvState::Release, remaining: e.timing.release, ..e }
    }
}

/// One sample: timed stages count down and hand on when they run out.
pub open spec fn spec_tick(e: EnvStage) -> EnvStage {
    match e.state {
        EnvState::Attack => if e.remaining <= 1 {
            spec_begin_decay(EnvStage { remaining: 0, ..e })
        } else {
            EnvStage { remaining: (e.remaining - 1) as u32, ..e }
        },
        EnvState::Decay => if e.remaining <= 1 {
            EnvStage { state: spec_after_decay(e.timing), remaining: 0, ..e }
        } else {
            EnvStage { remaining: (e.remaining - 1) as u32, ..e }
        },
        EnvState::Release => if e.remaining <= 1 {
            EnvStage { state: EnvState::Done, remaining: 0, ..e }
        } else {
            EnvStage { remaining: (e.remaining - 1) as u32, ..e }
        },
        _ => e,
    }
}

/// `n` ticks.
pub open spec fn spec_ticks(e: EnvStage, n: nat) -> EnvStage
    decreases n,
{
    if n == 0 {
        e
    } else {
        spec_tick(spec_ticks(e, (n - 1) as nat))
    }
}

impl EnvStage {
    /// An idle envelope with no segments.
    pub fn new() -> (e: EnvStage)
        ensures
            e.state == EnvState::Idle,
            e.remaining == 0,
            e.timing == (EnvTiming { attack: 0, decay: 0, release: 0, holds: true }),
    {
        EnvStage {
            timing: EnvTiming { attack: 0, decay: 0, release: 0, holds: true },
            state: EnvState::Idle,
            remaining: 0,
        }
    }

    /// Whether a voice on this envelope is still sounding.
    pub fn is_active(&self) -> (b: bool)
        ensures
            b == !(self.state is Idle || self.state is Done),
    {
        match self.state {
            EnvState::Idle | EnvState::Done => false,
            _ => true,
        }
    }

    fn begin_decay(&mut self)
        ensures
            *final(self) == spec_begin_decay(*old(self)),
    {
        if self.timing.decay == 0 {
            self.state = if self.timing.holds {
                EnvState::Sustain
            } else {
                EnvState::Done
            };
        } else {
            self.remaining = self.timing.decay;
            self.state = EnvState::Decay;
        }
    }

    /// (Re)start the envelope with timing `t`.
    pub fn trigger(&mut self, t: EnvTiming)
        ensures
            *final(self) == spec_trigger(*old(self), t),
            env_wf(*final(self)),
    {
        self.timing = t;
        if t.attack == 0 {
            self.begin_decay();
        } else {
            self.remaining = t.attack;
            self.state = EnvState::Attack;
        }
    }

    /// Enter Release from any stage.
    pub fn note_off(&mut self)
        ensures
            *final(self) == spec_note_off(*old(self)),
            env_wf(*final(self)),
    {
        if self.timing.release == 0 {
            self.state = EnvState::Done;
        } else {
            self.remaining = self.timing.release;
            self.state = EnvState::Release;
        }
    }

    /// Advance one sample.
    pub fn tick(&mut self)
        requires
            env_wf(*old(self)),
        ensures
            *final(self) == spec_tick(*old(self)),
            env_wf(*final(self)),
    {
        match self.state {
            EnvState::Attack => {
                self.remaining = self.remaining - 1;
                if self.remaining == 0 {
                    self.begin_decay();
                }
            },
            EnvState::Decay => {
                self.remaining = self.remaining - 1;
                if self.remaining == 0 {
                    self.state = if self.timing.holds {
                        EnvState::Sustain
                    } else {
                        EnvState::Done
                    };
                }
            },
            EnvState::Release => {
                self.remaining = self.remaining - 1;
                if self.remaining == 0 {
                    self.state = EnvState::Done;
                }
            },
            _ => {},
        }
    }
}

/// Counting down a timed stage: after `k` ticks with `k` below the samples
/// left, the stage is still running with `k` fewer left.
proof fn lemma_ticks_within_stage(e: EnvStage, k: nat)
    requires
        e.state is Attack || e.state is Decay || e.state is Release,
        k < e.remaining,
    ensures
        spec_ticks(e, k) == (EnvStage { remaining: (e.remaining - k) as u32, ..e }),
    decreases k,
{
    if k > 0 {
        lemma_ticks_within_stage(e, (k - 1) as nat);
    }
}

/// A release of `r > 0` samples runs for exactly `r` ticks and then the
/// envelope is Done, whatever stage it was released from.
pub proof fn law_release_ends_exactly_after_its_length(e: EnvStage)
    requires
        e.timing.release > 0,
    ensures
        spec_ticks(spec_note_off(e), (e.timing.release - 1) as nat).state == EnvState::Release,
        spec_ticks(spec_note_off(e), e.timing.release as nat).state == EnvState::Done,
{
    let r = spec_note_off(e);
    lemma_ticks_within_stage(r, (e.timing.release - 1) as nat);
}

/// An attack of `a > 0` samples runs for exactly `a` ticks and then hands
/// on to decay (or straight to its end when there is no decay).
pub proof fn law_attack_ends_exactly_after_its_length(e: EnvStage, t: EnvTiming)
    requires
        t.attack > 0,
    ensures
        spec_ticks(spec_trigger(e, t), (t.attack - 1) as nat).state == EnvState::Attack,
        spec_ticks(spec_trigger(e, t), t.attack as nat).state == (if t.decay > 0 {
            EnvState::Decay
        } else if t.holds {
            EnvState::Sustain
        } else {
            EnvState::Done
        }),
{
    let a = spec_trigger(e, t);
    lemma_ticks_within_stage(a, (t.attack - 1) as nat);
}

/// A decay of `d > 0` samples runs for exactly `d` ticks and then parks in
/// Sustain when the level holds, or ends (Done) when the sustain level is
/// zero: a zero-sustain one-shot ends by itself. This holds for a decay
/// entered from a trigger without attack, and for any decay under way with
/// `d` samples left.
pub proof fn law_decay_ends_exactly_after_its_length(e: EnvStage, t: EnvTiming)
    ensures
        t.attack == 0 && t.decay > 0 ==> {
            &&& spec_ticks(spec_trigger(e, t), (t.decay - 1) as nat).state == EnvState::Decay
            &&& spec_ticks(spec_trigger(e, t), t.decay as nat).state == (if t.holds {
                EnvState::Sustain
            } else {
                EnvState::Done
            })
        },
        e.state == EnvState::Decay && e.remaining > 0 ==> {
            &&& spec_ticks(e, (e.remaining - 1) as nat).state == EnvState::Decay
            &&& spec_ticks(e, e.remaining as nat).state == (if e.timing.holds {
                EnvState::Sustain
            } else {
                EnvState::Done
            })
        },
{
    if t.attack == 0 && t.decay > 0 {
        lemma_ticks_within_stage(spec_trigger(e, t), (t.decay - 1) as nat);
    }
    if e.state == EnvState::Decay && e.remaining > 0 {
        lemma_ticks_within_stage(e, (e.remaining - 1) as nat);
    }
}

/// Idle, Sustain and Done are resting stages: ticking leaves them
/// unchanged.
pub proof fn law_resting_stages_stay_put(e: EnvStage, n: nat)
    requires
        e.state is Idle || e.state is Done || e.state is Sustain,
    ensures
        spec_ticks(e, n) == e,
    decreases n,
{
    if n > 0 {
        law_resting_stages_stay_put(e, (n - 1) as nat);
    }
}

} // verus!
