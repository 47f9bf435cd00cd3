//! Pieces of the opponent AI that are pure integer logic: the escape verbs
//! and the wrong-read pick, and the reaction-delay buffer of observations.
//! The steering and threat reads run on floating point with the host.
use vstd::prelude::*;
use crate::minigame::Difficulty;
use crate::rng::{Rng, spec_output, spec_step};

verus! {

/// Verbs that answer an opponent's special.
#[derive(Clone, Copy, Debug, PartialEq, Eq, Structural)]
pub enum EscapeVerb {
    Hop,
    Anchor,
    Carve,
}

/// The two verbs other than `correct`, in declaration order.
pub open spec fn spec_wrong_candidates(correct: EscapeVerb) -> (EscapeVerb, EscapeVerb) {
    match correct {
        EscapeVerb::Hop => (EscapeVerb::Anchor, EscapeVerb::Carve),
        EscapeVerb::Anchor => (EscapeVerb::Hop, EscapeVerb::Carve),
        EscapeVerb::Carve => (EscapeVerb::Hop, EscapeVerb::Anchor),
    }
}

/// A plausible-but-wrong escape for a failed read: one of the other two
/// verbs, picked by one draw `range_i32(0, 2)` of the AI's generator.
pub fn wrong_escape_verb(rng: &mut Rng, correct: EscapeVerb) -> (v: EscapeVerb)
    ensures
        final(rng)@ == spec_step(old(rng)@),
        v == (if spec_output(final(rng)@) % 2 == 0 {
            spec_wrong_candidates(correct).0
        } else {
            spec_wrong_candidates(correct).1
        }),
        v != correct,
{
    let (a, b) = match correct {
        EscapeVerb::Hop => (EscapeVerb::Anchor, EscapeVerb::Carve),
        EscapeVerb::Anchor => (EscapeVerb::Hop, EscapeVerb::Carve),
        EscapeVerb::Carve => (EscapeVerb::Hop, EscapeVerb::Anchor),
    };
    if rng.range_i32(0, 2) == 0 {
        a
    } else {
        b
    }
}

/// Capacity of the reaction-delay buffer, in steps.
pub const OBS_BUFFER_LEN: usize = 40;

/// What `delayed(delay)` reads after `pushed` (oldest first): the entry
/// `delay` steps before the newest, clamped to the oldest one still held;
/// `fill` before anything was pushed.
pub open spec fn spec_delayed<T>(pushed: Seq<T>, fill: T, delay: int) -> T {
    if pushed.len() == 0 {
        fill
    } else {
        let held = if pushed.len() < OBS_BUFFER_LEN { pushed.len() as int } else { OBS_BUFFER_LEN as int };
        let d = if delay < held - 1 { delay } else { held - 1 };
        pushed[pushed.len() - 1 - d]
    }
}

/// A fixed ring of the last `OBS_BUFFER_LEN` observations, read back by
/// delay.
pub struct DelayBuffer<T> {
    buf: Vec<T>,
    write_idx: usize,
    filled: usize,
    fill: Ghost<T>,
    pushed: Ghost<Seq<T>>,
}

impl<T: Copy> DelayBuffer<T> {
    /// Everything pushed so far, oldest first.
    pub closed spec fn history(&self) -> Seq<T> {
        self.pushed@
    }

    /// What the buffer reads before anything was pushed.
    pub closed spec fn fill_value(&self) -> T {
        self.fill@
    }

    pub closed spec fn wf(&self) -> bool {
        &&& self.buf@.len() == OBS_BUFFER_LEN
        &&& self.write_idx < OBS_BUFFER_LEN
        &&& self.write_idx == (self.pushed@.len() as int) % (OBS_BUFFER_LEN as int)
        &&& self.filled == (if self.pushed@.len() < OBS_BUFFER_LEN {
            self.pushed@.len()
        } else {
            OBS_BUFFER_LEN as nat
        })
        &&& forall|k: int|
            0 <= k < self.filled ==> #[trigger] self.buf@[(self.write_idx + OBS_BUFFER_LEN - 1 - k) % (
            OBS_BUFFER_LEN as int)] == self.pushed@[self.pushed@.len() - 1 - k]
        &&& forall|i: int| self.filled <= i < OBS_BUFFER_LEN ==> #[trigger] self.buf@[i] == self.fill@
    }

    /// An empty buffer whose every slot holds `fill`.
    pub fn new(fill: T) -> (b: DelayBuffer<T>)
        ensures
            b.wf(),
            b.history() == Seq::<T>::empty(),
            b.fill_value() == fill,
    {
        let mut buf: Vec<T> = Vec::new();
        let mut i: usize = 0;
        while i < OBS_BUFFER_LEN
            invariant
                i <= OBS_BUFFER_LEN,
                buf@.len() == i,
                forall|k: int| 0 <= k < i ==> #[trigger] buf@[k] == fill,
            decreases OBS_BUFFER_LEN - i,
        {
            buf.push(fill);
            i = i + 1;
        }
        DelayBuffer { buf, write_idx: 0, filled: 0, fill: Ghost(fill), pushed: Ghost(Seq::empty()) }
    }

    /// Record the newest observation, overwriting the oldest once full.
    pub fn push(&mut self, obs: T)
        requires
            old(self).wf(),
        ensures
            final(self).wf(),
            final(self).history() == old(self).history().push(obs),
            final(self).fill_value() == old(self).fill_value(),
    {
        let ghost old_pushed = self.pushed@;
        let ghost old_w = self.write_idx as int;
        let ghost old_buf = self.buf@;
        let ghost n = OBS_BUFFER_LEN as int;
        let w = self.write_idx;
        self.buf.set(w, obs);
        self.write_idx = (self.write_idx + 1) % OBS_BUFFER_LEN;
        if self.filled < OBS_BUFFER_LEN {
            self.filled = self.filled + 1;
        }
        self.pushed = Ghost(old_pushed.push(obs));
        proof {
            let p = self.pushed@;
            vstd::arithmetic::div_mod::lemma_add_mod_noop(old_pushed.len() as int, 1, n);
            vstd::arithmetic::div_mod::lemma_small_mod(1, n as nat);
            vstd::arithmetic::div_mod::lemma_mod_twice(old_pushed.len() as int, n);
            vstd::arithmetic::div_mod::lemma_mod_bound(old_pushed.len() as int + 1, n);
            assert(self.write_idx as int == (old_w + 1) % n);
            assert forall|k: int| 0 <= k < self.filled implies #[trigger] self.buf@[(self.write_idx + OBS_BUFFER_LEN
                - 1 - k) % n] == p[p.len() - 1 - k] by {
                let idx = (self.write_idx + OBS_BUFFER_LEN - 1 - k) % n;
                if k == 0 {
                    vstd::arithmetic::div_mod::lemma_add_mod_noop(old_w + 1, n - 1, n);
                    vstd::arithmetic::div_mod::lemma_mod_add_multiples_vanish(old_w, n);
                    vstd::arithmetic::div_mod::lemma_small_mod(old_w as nat, n as nat);
                    vstd::arithmetic::div_mod::lemma_small_mod((n - 1) as nat, n as nat);
                    assert(idx == old_w);
                } else {
                    let j = k - 1;
                    vstd::arithmetic::div_mod::lemma_add_mod_noop(old_w + 1, n - 1 - k, n);
                    vstd::arithmetic::div_mod::lemma_small_mod((n - 1 - k) as nat, n as nat);
                    assert(idx == (old_w + n - 1 - j) % n);
                    vstd::arithmetic::div_mod::lemma_mod_bound(old_w + n - 1 - j, n);
                    assert(idx != old_w) by {
                        vstd::arithmetic::div_mod::lemma_fundamental_div_mod(old_w + n - 1 - j, n);
                        vstd::arithmetic::div_mod::lemma_small_mod(old_w as nat, n as nat);
                        if idx == old_w {
                            vstd::arithmetic::div_mod::lemma_mod_add_multiples_vanish(old_w, n);
                            vstd::arithmetic::div_mod::lemma_fundamental_div_mod_converse(
                                old_w + n - 1 - j,
                                n,
                                1,
                                old_w - 1 - j,
                            );
                            if old_w >= 1 + j {
                                assert(false);
                            }
                            vstd::arithmetic::div_mod::lemma_fundamental_div_mod_converse(
                                old_w + n - 1 - j,
                                n,
                                0,
                                old_w + n - 1 - j,
                            );
                        }
                    }
                    assert(old_buf[(old_w + OBS_BUFFER_LEN - 1 - j) % n] == old_pushed[old_pushed.len() - 1 - j]);
                }
            }
            assert forall|i: int| self.filled <= i < OBS_BUFFER_LEN implies #[trigger] self.buf@[i] == self.fill@ by {
                assert(i != old_w);
            }
        }
    }

    /// The observation from `delay` steps ago, clamped to the oldest one
    /// held (the newest is delay 0).
    pub fn delayed(&self, delay: u16) -> (o: T)
        requires
            self.wf(),
        ensures
            o == spec_delayed(self.history(), self.fill_value(), delay as int),
    {
        let max_delay = if self.filled == 0 {
            0
        } else {
            self.filled - 1
        };
        let mut d = delay as usize;
        if d > max_delay {
            d = max_delay;
        }
        if d > OBS_BUFFER_LEN - 1 {
            d = OBS_BUFFER_LEN - 1;
        }
        let idx = (self.write_idx + OBS_BUFFER_LEN - 1 - d) % OBS_BUFFER_LEN;
        proof {
            if self.filled == 0 {
                vstd::arithmetic::div_mod::lemma_small_mod((OBS_BUFFER_LEN - 1) as nat, OBS_BUFFER_LEN as nat);
            }
        }
        self.buf[idx]
    }
}

/// After at least `delay + 1` pushes (within the capacity), `delayed(delay)`
/// reads back exactly the observation pushed `delay` steps before the
/// newest.
pub proof fn law_delay_reads_back_the_pushed_observation<T>(pushed: Seq<T>, fill: T, delay: int)
    requires
        0 <= delay < pushed.len(),
        delay < OBS_BUFFER_LEN,
    ensures
        spec_delayed(pushed, fill, delay) == pushed[pushed.len() - 1 - delay],
{
}

/// Steps of reaction lag of each difficulty tier: the AI acts on the
/// observation this many steps old.
pub open spec fn spec_reaction_delay(d: Difficulty) -> u16 {
    match d {
        Difficulty::Easy => 30,
        Difficulty::Normal => 16,
        Difficulty::Hard => 8,
        Difficulty::Ace => 4,
    }
}

/// Reaction lag of tier `d`, in steps.
pub fn reaction_delay_steps(d: Difficulty) -> (r: u16)
    ensures
        r == spec_reaction_delay(d),
{
    match d {
        Difficulty::Easy => 30,
        Difficulty::Normal => 16,
        Difficulty::Hard => 8,
        Difficulty::Ace => 4,
    }
}

/// Harder tiers react faster, and every tier's lag fits inside the
/// observation buffer.
pub proof fn law_harder_tiers_react_faster()
    ensures
        spec_reaction_delay(Difficulty::Easy) > spec_reaction_delay(Difficulty::Normal),
        spec_reaction_delay(Difficulty::Normal) > spec_reaction_delay(Difficulty::Hard),
        spec_reaction_delay(Difficulty::Hard) > spec_reaction_delay(Difficulty::Ace),
        forall|d: Difficulty| #[trigger] spec_reaction_delay(d) < OBS_BUFFER_LEN,
{
}

} // verus!
