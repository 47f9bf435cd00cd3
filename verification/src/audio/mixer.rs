//! Voice layout and allocation of the 16-voice mixer. Voices `0..11` are
//! the one-shot effects pool, voice 11 the spin hum, voices `12..16` the
//! tracker's channels. Only the pool is ever allocated or stolen from;
//! synthesis and mixing run on floating point with the host.
use vstd::prelude::*;

verus! {

/// Size of the one-shot effects pool (voices `0..SFX_POOL_SIZE`).
pub const SFX_POOL_SIZE: usize = 11;

/// The voice reserved for the spin hum.
pub const SPIN_HUM_VOICE: usize = 11;

/// First of the tracker's four reserved voices.
pub const MUSIC_VOICE_BASE: usize = 12;

/// Tracker channels (pulse 1, pulse 2, bass, drums).
pub const NUM_MUSIC_CHANNELS: usize = 4;

/// Total voices.
pub const NUM_VOICES: usize = 16;

/// What the allocator reads of a voice: whether it sounds, its steal
/// priority (higher survives longer) and the sample it was started on.
#[derive(Clone, Copy, Debug, PartialEq, Eq, Structural)]
pub struct VoiceSlot {
    pub active: bool,
    pub priority: u8,
    pub age: u64,
}

/// Voice `j` is no better to keep than voice `k`: lower priority, or equal
/// priority and older, or equal in both and not after it.
pub open spec fn steal_before(s: Seq<VoiceSlot>, j: int, k: int) -> bool {
    ||| s[j].priority < s[k].priority
    ||| s[j].priority == s[k].priority && s[j].age < s[k].age
    ||| s[j].priority == s[k].priority && s[j].age == s[k].age && j <= k
}

/// The pool voice a new one-shot effect goes to: the first idle pool voice,
/// or, with the whole pool busy, the one with the lowest priority, then the
/// oldest, then the lowest index.
pub open spec fn is_chosen_voice(s: Seq<VoiceSlot>, v: int) -> bool {
    &&& 0 <= v < SFX_POOL_SIZE
    &&& (exists|i: int| 0 <= i < SFX_POOL_SIZE && !#[trigger] s[i].active) ==> {
        &&& !s[v].active
        &&& forall|i: int| 0 <= i < v ==> #[trigger] s[i].active
    }
    &&& (forall|i: int| 0 <= i < SFX_POOL_SIZE ==> #[trigger] s[i].active) ==> forall|k: int|
        0 <= k < SFX_POOL_SIZE ==> #[trigger] steal_before(s, v, k)
}

/// Pick the pool voice for a new one-shot effect.
pub fn choose_pool_voice(slots: &[VoiceSlot]) -> (v: usize)
    requires
        slots@.len() == NUM_VOICES,
    ensures
        is_chosen_voice(slots@, v as int),
{
    let mut i: usize = 0;
    while i < SFX_POOL_SIZE
        invariant
            i <= SFX_POOL_SIZE,
            slots@.len() == NUM_VOICES,
            forall|k: int| 0 <= k < i ==> #[trigger] slots@[k].active,
        decreases SFX_POOL_SIZE - i,
    {
        if !slots[i].active {
            return i;
        }
        i = i + 1;
    }
    let mut victim: usize = 0;
    let mut best_priority = slots[0].priority;
    let mut best_age = slots[0].age;
    let mut j: usize = 1;
    while j < SFX_POOL_SIZE
        invariant
            1 <= j <= SFX_POOL_SIZE,
            victim < j,
            slots@.len() == NUM_VOICES,
            best_priority == slots@[victim as int].priority,
            best_age == slots@[victim as int].age,
            forall|k: int| 0 <= k < j ==> #[trigger] steal_before(slots@, victim as int, k),
        decreases SFX_POOL_SIZE - j,
    {
        let s = slots[j];
        let ghost old_v = victim as int;
        if s.priority < best_priority || (s.priority == best_priority && s.age < best_age) {
            victim = j;
            best_priority = s.priority;
            best_age = s.age;
            assert forall|k: int| 0 <= k < j + 1 implies #[trigger] steal_before(slots@, j as int, k) by {
                if k < j {
                    assert(steal_before(slots@, old_v, k));
                }
            }
        } else {
            assert(steal_before(slots@, old_v, j as int));
        }
        j = j + 1;
    }
    victim
}

/// Allocation never touches the spin-hum or tracker voices.
pub proof fn law_allocation_stays_in_the_pool(s: Seq<VoiceSlot>, v: int)
    requires
        is_chosen_voice(s, v),
    ensures
        v < SPIN_HUM_VOICE,
        v < MUSIC_VOICE_BASE,
{
}

/// The allocator's choice is unique: at most one voice meets its rule.
pub proof fn law_allocation_is_deterministic(s: Seq<VoiceSlot>, v: int, w: int)
    requires
        is_chosen_voice(s, v),
        is_chosen_voice(s, w),
    ensures
        v == w,
{
    if exists|i: int| 0 <= i < SFX_POOL_SIZE && !#[trigger] s[i].active {
        if v < w {
            assert(s[v].active);
        } else if w < v {
            assert(s[w].active);
        }
    } else {
        assert(steal_before(s, v, w));
        assert(steal_before(s, w, v));
    }
}

} // verus!
