//! Specials, their effect on stats, round-end classification and round
//! scoring.
use vstd::prelude::*;
use crate::physics::{Outcome, Stats};
use crate::roster::Silhouette;

verus! {

/// Which special a top has, keyed off its roster silhouette.
#[derive(Clone, Copy, Debug, PartialEq, Eq, Structural)]
pub enum SpecialId {
    GuillotineRush,
    AegisLock,
    SecondWind,
    Overclock,
    Slipstream,
    Sinkhole,
    Riposte,
}

/// Roster-table mapping from silhouette to special.
pub open spec fn spec_special_of(s: Silhouette) -> SpecialId {
    match s {
        Silhouette::Cleaver => SpecialId::GuillotineRush,
        Silhouette::Bulwark => SpecialId::AegisLock,
        Silhouette::Everspin => SpecialId::SecondWind,
        Silhouette::Keystone => SpecialId::Overclock,
        Silhouette::Riptide => SpecialId::Slipstream,
        Silhouette::Gravewell => SpecialId::Sinkhole,
        Silhouette::Mirrorfang => SpecialId::Riposte,
    }
}

/// Active-effect length of each special, in sim steps.
pub open spec fn spec_duration_steps(s: SpecialId) -> u16 {
    match s {
        SpecialId::GuillotineRush => 48,
        SpecialId::AegisLock => 150,
        SpecialId::SecondWind => 240,
        SpecialId::Overclock => 120,
        SpecialId::Slipstream => 60,
        SpecialId::Sinkhole => 180,
        SpecialId::Riposte => 90,
    }
}

impl SpecialId {
    pub fn from_silhouette(s: Silhouette) -> (r: SpecialId)
        ensures
            r == spec_special_of(s),
    {
        match s {
            Silhouette::Cleaver => SpecialId::GuillotineRush,
            Silhouette::Bulwark => SpecialId::AegisLock,
            Silhouette::Everspin => SpecialId::SecondWind,
            Silhouette::Keystone => SpecialId::Overclock,
            Silhouette::Riptide => SpecialId::Slipstream,
            Silhouette::Gravewell => SpecialId::Sinkhole,
            Silhouette::Mirrorfang => SpecialId::Riposte,
        }
    }

    /// Duration of this special's own active effect, in sim steps.
    pub fn duration_steps(self) -> (d: u16)
        ensures
            d == spec_duration_steps(self),
    {
        match self {
            SpecialId::GuillotineRush => 48,
            SpecialId::AegisLock => 150,
            SpecialId::SecondWind => 240,
            SpecialId::Overclock => 120,
            SpecialId::Slipstream => 60,
            SpecialId::Sinkhole => 180,
            SpecialId::Riposte => 90,
        }
    }
}

/// Silhouette-to-special is one-to-one: distinct silhouettes give distinct
/// specials.
pub proof fn law_special_of_is_injective(a: Silhouette, b: Silhouette)
    ensures
        spec_special_of(a) == spec_special_of(b) ==> a == b,
{
}

/// Round-ending condition and its point value.
#[derive(Clone, Copy, Debug, PartialEq, Eq, Structural)]
pub enum RoundEnd {
    CrashOut,
    Over,
    Survivor,
    Draw,
}

/// Points awarded for each round end: 3 / 2 / 1 / 0.
pub open spec fn spec_points(e: RoundEnd) -> u8 {
    match e {
        RoundEnd::CrashOut => 3,
        RoundEnd::Over => 2,
        RoundEnd::Survivor => 1,
        RoundEnd::Draw => 0,
    }
}

impl RoundEnd {
    pub fn points(self) -> (p: u8)
        ensures
            p == spec_points(self),
    {
        match self {
            RoundEnd::CrashOut => 3,
            RoundEnd::Over => 2,
            RoundEnd::Survivor => 1,
            RoundEnd::Draw => 0,
        }
    }
}

/// An outcome whose loser, if any, is top 0 or top 1.
pub open spec fn outcome_wf(o: Outcome) -> bool {
    match o {
        Outcome::RingOut { loser } => loser <= 1,
        Outcome::StaminaOut { loser } => loser <= 1,
        Outcome::Simultaneous => true,
    }
}

/// Scoring of a decided round: the winner is the top that did not lose; a
/// kill while the winner's Crash-Out window is open scores Crash-Out,
/// otherwise ring-out scores Over and stamina-out scores Survivor. A
/// double-out or an undecided round scores nothing.
pub open spec fn spec_round_points(outcome: Option<Outcome>, crash_windows: [u16; 2]) -> Option<(u8, RoundEnd)> {
    match outcome {
        Some(Outcome::RingOut { loser }) => {
            let winner = (1 - loser) as u8;
            Some((winner, if crash_windows[winner as int] > 0 { RoundEnd::CrashOut } else { RoundEnd::Over }))
        },
        Some(Outcome::StaminaOut { loser }) => {
            let winner = (1 - loser) as u8;
            Some((winner, if crash_windows[winner as int] > 0 { RoundEnd::CrashOut } else { RoundEnd::Survivor }))
        },
        _ => None,
    }
}

/// Round points from a round's outcome and the two tops' remaining
/// Crash-Out windows (indexed by top).
pub fn round_points(outcome: Option<Outcome>, crash_windows: [u16; 2]) -> (r: Option<(u8, RoundEnd)>)
    requires
        outcome matches Some(o) ==> outcome_wf(o),
    ensures
        r == spec_round_points(outcome, crash_windows),
{
    match outcome {
        Some(Outcome::RingOut { loser }) => {
            let winner = 1 - loser;
            let end = if crash_windows[winner as usize] > 0 {
                RoundEnd::CrashOut
            } else {
                RoundEnd::Over
            };
            Some((winner, end))
        },
        Some(Outcome::StaminaOut { loser }) => {
            let winner = 1 - loser;
            let end = if crash_windows[winner as usize] > 0 {
                RoundEnd::CrashOut
            } else {
                RoundEnd::Survivor
            };
            Some((winner, end))
        },
        _ => None,
    }
}

/// A decided single-loser round always goes to the other top, and is worth
/// at least one point.
pub proof fn law_decided_round_scores_the_other_top(outcome: Outcome, crash_windows: [u16; 2])
    requires
        outcome_wf(outcome),
        !(outcome is Simultaneous),
    ensures
        spec_round_points(Some(outcome), crash_windows) matches Some((w, e)) && w <= 1 && spec_points(e) >= 1
            && (outcome matches Outcome::RingOut { loser } ==> w == 1 - loser)
            && (outcome matches Outcome::StaminaOut { loser } ==> w == 1 - loser),
{
}

/// A round lost by one top goes to the other, and its value depends on the
/// winner's Crash-Out window: 3 points whenever that window is still open,
/// whether the loser rang out or ran out of stamina; otherwise 2 points for
/// a ring-out and 1 for a stamina-out. A double-out or an undecided round
/// scores nothing.
pub proof fn law_crash_out_window_decides_the_round_value(outcome: Option<Outcome>, crash_windows: [u16; 2])
    requires
        outcome matches Some(o) ==> outcome_wf(o),
    ensures
        outcome matches Some(Outcome::RingOut { loser }) ==> spec_round_points(outcome, crash_windows) matches Some((w, e))
            && w == 1 - loser && spec_points(e) == (if crash_windows[1 - loser] > 0 { 3u8 } else { 2u8 })
            && (e == RoundEnd::CrashOut <==> crash_windows[1 - loser] > 0),
        outcome matches Some(Outcome::StaminaOut { loser }) ==> spec_round_points(outcome, crash_windows) matches Some((w, e))
            && w == 1 - loser && spec_points(e) == (if crash_windows[1 - loser] > 0 { 3u8 } else { 1u8 })
            && (e == RoundEnd::CrashOut <==> crash_windows[1 - loser] > 0),
        (outcome is None || outcome == Some(Outcome::Simultaneous)) ==> spec_round_points(outcome, crash_windows) is None,
{
}

/// Overclock's flat bonus to all six stats while active.
pub const SPECIAL_OVERCLOCK_STAT_BONUS: u8 = 12;

/// The DEF floor Aegis Lock grants while active.
pub const SPECIAL_AEGIS_DEF_EFFECTIVE: u8 = 100;

/// `v + b` saturated at 255.
pub open spec fn spec_sat_add_u8(v: u8, b: u8) -> u8 {
    if v + b > 255 {
        255u8
    } else {
        (v + b) as u8
    }
}

/// The stats a top fights with: while a special runs, Overclock adds its
/// bonus to every stat (saturating) and Aegis Lock raises DEF to its floor;
/// otherwise the base stats.
pub open spec fn spec_effective_stats(stats: Stats, special_active: u16, special_id: SpecialId) -> Stats {
    if special_active > 0 && special_id == SpecialId::Overclock {
        Stats {
            atk: spec_sat_add_u8(stats.atk, SPECIAL_OVERCLOCK_STAT_BONUS),
            def: spec_sat_add_u8(stats.def, SPECIAL_OVERCLOCK_STAT_BONUS),
            sta: spec_sat_add_u8(stats.sta, SPECIAL_OVERCLOCK_STAT_BONUS),
            wgt: spec_sat_add_u8(stats.wgt, SPECIAL_OVERCLOCK_STAT_BONUS),
            spd: spec_sat_add_u8(stats.spd, SPECIAL_OVERCLOCK_STAT_BONUS),
            mtr: spec_sat_add_u8(stats.mtr, SPECIAL_OVERCLOCK_STAT_BONUS),
        }
    } else if special_active > 0 && special_id == SpecialId::AegisLock {
        Stats {
            def: if stats.def >= SPECIAL_AEGIS_DEF_EFFECTIVE { stats.def } else { SPECIAL_AEGIS_DEF_EFFECTIVE },
            ..stats
        }
    } else {
        stats
    }
}

/// Effective stats of a top with base `stats` whose special `special_id`
/// has `special_active` steps left.
pub fn effective_stats(stats: Stats, special_active: u16, special_id: SpecialId) -> (s: Stats)
    ensures
        s == spec_effective_stats(stats, special_active, special_id),
{
    let mut s = stats;
    if special_active > 0 {
        match special_id {
            SpecialId::Overclock => {
                let bonus = SPECIAL_OVERCLOCK_STAT_BONUS;
                s.atk = s.atk.saturating_add(bonus);
                s.def = s.def.saturating_add(bonus);
                s.sta = s.sta.saturating_add(bonus);
                s.wgt = s.wgt.saturating_add(bonus);
                s.spd = s.spd.saturating_add(bonus);
                s.mtr = s.mtr.saturating_add(bonus);
            },
            SpecialId::AegisLock => {
                if s.def < SPECIAL_AEGIS_DEF_EFFECTIVE {
                    s.def = SPECIAL_AEGIS_DEF_EFFECTIVE;
                }
            },
            _ => {},
        }
    }
    s
}

/// Whether an active special roots the top in place (Aegis Lock only).
pub fn is_rooted_by_special(special_active: u16, special_id: SpecialId) -> (b: bool)
    ensures
        b == (special_active > 0 && special_id == SpecialId::AegisLock),
{
    special_active > 0 && special_id == SpecialId::AegisLock
}

} // verus!
