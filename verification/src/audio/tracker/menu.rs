//! Menu theme: 112 BPM, A natural minor, an 8-bar loop. Pulse 1 plays a
//! rolling arpeggio, pulse 2 a soft pad on the beats, the bass root and
//! fifth on beats 1 and 3, and the drums a lazy kick, snare and offbeat hats.
use vstd::prelude::*;
use crate::audio::tracker::{RowNotes, HAT, REST, ROWS_PER_BAR, SNARE};

verus! {

pub const BPM: u32 = 112;
pub const BARS: u32 = 8;
pub const TOTAL_ROWS: u32 = 128;

/// Pulse-1 arpeggio of bar `bar`: a turnaround in bar 4, a breath in bar 8.
pub open spec fn spec_lead_pattern(bar: int) -> [i8; 16] {
    if bar == 3 {
        [0, 3, 7, 12, 2, 5, 8, 12, 0, 3, 7, 10, 7, 5, 3, 0]
    } else if bar == 7 {
        [0, 3, 7, 10, 7, 5, 3, 2, 0, REST, REST, REST, REST, REST, REST, REST]
    } else {
        [0, 3, 7, 12, 0, 3, 7, 12, 0, 3, 7, 10, 0, 3, 7, 12]
    }
}

/// Pulse-2 pad of bar `bar`: one chord tone per beat.
pub open spec fn spec_pad_pattern(bar: int) -> [i8; 16] {
    if bar == 3 || bar == 7 {
        [-12i8, REST, REST, REST, -10i8, REST, REST, REST, -5i8, REST, REST, REST, -12i8, REST, REST, REST]
    } else {
        [-12i8, REST, REST, REST, -9i8, REST, REST, REST, -5i8, REST, REST, REST, -12i8, REST, REST, REST]
    }
}

/// Bass: root and fifth on beats 1 and 3, every bar.
pub open spec fn spec_bass_pattern() -> [i8; 16] {
    [-24i8, REST, REST, REST, REST, REST, REST, REST, -17i8, REST, REST, REST, REST, REST, REST, REST]
}

/// Kick: row 0 of every bar only.
pub open spec fn spec_kick_pattern() -> [bool; 16] {
    [true, false, false, false, false, false, false, false, false, false, false, false, false, false, false, false]
}

/// Snare/hat texture of bar `bar`; silent in the breath bar.
pub open spec fn spec_perc_pattern(bar: int) -> [i8; 16] {
    if bar == 7 {
        [REST, REST, REST, REST, REST, REST, REST, REST, REST, REST, REST, REST, REST, REST, REST, REST]
    } else {
        [REST, REST, HAT, REST, REST, REST, HAT, REST, SNARE, REST, HAT, REST, REST, REST, HAT, REST]
    }
}

/// Everything that sounds on song row `row` (the loop repeats every
/// `TOTAL_ROWS` rows).
pub open spec fn spec_notes(row: u32) -> RowNotes {
    let bar = ((row / ROWS_PER_BAR) % BARS) as int;
    let r = (row % ROWS_PER_BAR) as int;
    RowNotes {
        lead: spec_lead_pattern(bar)[r],
        pulse2: spec_pad_pattern(bar)[r],
        bass: spec_bass_pattern()[r],
        kick: spec_kick_pattern()[r],
        perc: spec_perc_pattern(bar)[r],
    }
}

fn lead_pattern_for(bar: u32) -> (p: [i8; 16])
    ensures
        p == spec_lead_pattern(bar as int),
{
    if bar == 3 {
        [0, 3, 7, 12, 2, 5, 8, 12, 0, 3, 7, 10, 7, 5, 3, 0]
    } else if bar == 7 {
        [0, 3, 7, 10, 7, 5, 3, 2, 0, REST, REST, REST, REST, REST, REST, REST]
    } else {
        [0, 3, 7, 12, 0, 3, 7, 12, 0, 3, 7, 10, 0, 3, 7, 12]
    }
}

fn pad_pattern_for(bar: u32) -> (p: [i8; 16])
    ensures
        p == spec_pad_pattern(bar as int),
{
    if bar == 3 || bar == 7 {
        [-12i8, REST, REST, REST, -10i8, REST, REST, REST, -5i8, REST, REST, REST, -12i8, REST, REST, REST]
    } else {
        [-12i8, REST, REST, REST, -9i8, REST, REST, REST, -5i8, REST, REST, REST, -12i8, REST, REST, REST]
    }
}

fn bass_pattern() -> (p: [i8; 16])
    ensures
        p == spec_bass_pattern(),
{
    [-24i8, REST, REST, REST, REST, REST, REST, REST, -17i8, REST, REST, REST, REST, REST, REST, REST]
}

fn kick_pattern() -> (p: [bool; 16])
    ensures
        p == spec_kick_pattern(),
{
    [true, false, false, false, false, false, false, false, false, false, false, false, false, false, false, false]
}

fn perc_pattern_for(bar: u32) -> (p: [i8; 16])
    ensures
        p == spec_perc_pattern(bar as int),
{
    if bar == 7 {
        [REST, REST, REST, REST, REST, REST, REST, REST, REST, REST, REST, REST, REST, REST, REST, REST]
    } else {
        [REST, REST, HAT, REST, REST, REST, HAT, REST, SNARE, REST, HAT, REST, REST, REST, HAT, REST]
    }
}

/// Whether song row `row` carries a kick.
pub fn kick_on_row(row: u32) -> (k: bool)
    ensures
        k == spec_kick_pattern()[(row % ROWS_PER_BAR) as int],
{
    let r = (row % ROWS_PER_BAR) as usize;
    kick_pattern()[r]
}

/// The notes of song row `row`.
pub fn fire_row(row: u32) -> (n: RowNotes)
    ensures
        n == spec_notes(row),
{
    let bar = (row / ROWS_PER_BAR) % BARS;
    let r = (row % ROWS_PER_BAR) as usize;
    RowNotes {
        lead: lead_pattern_for(bar)[r],
        pulse2: pad_pattern_for(bar)[r],
        bass: bass_pattern()[r],
        kick: kick_pattern()[r],
        perc: perc_pattern_for(bar)[r],
    }
}

} // verus!
