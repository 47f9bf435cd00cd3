//! Battle theme: 148 BPM, A Phrygian, 16 bars (4 riser, 8 groove, 4 break).
//! The intensity layer adds a pulse-2 counter-melody from the groove on and
//! doubles the hats; it is silent until switched on.
use vstd::prelude::*;
use crate::audio::tracker::{RowNotes, HAT, REST, ROWS_PER_BAR, SNARE};

verus! {

pub const BPM: u32 = 148;
pub const BARS: u32 = 16;
pub const TOTAL_ROWS: u32 = 256;

/// First groove bar; the counter-melody sounds from here on.
pub const GROOVE_START_BAR: u32 = 4;

/// Lead of bar `bar`: a riser figure, the alternating groove riff, a
/// sparse break and a rising fill in the last bar.
pub open spec fn spec_lead_pattern(bar: int) -> [i8; 16] {
    if bar == 0 {
        [0, REST, REST, REST, REST, REST, REST, REST, REST, REST, REST, REST, REST, REST, REST, REST]
    } else if bar == 1 {
        [1, REST, REST, REST, REST, REST, REST, REST, REST, REST, REST, REST, REST, REST, REST, REST]
    } else if bar == 2 {
        [3, REST, REST, REST, REST, REST, REST, REST, REST, REST, REST, REST, REST, REST, REST, REST]
    } else if bar == 3 {
        [0, 1, 3, 5, 7, 8, 10, 12, REST, REST, REST, REST, REST, REST, REST, REST]
    } else if 4 <= bar <= 11 && bar % 2 == 0 {
        [0, 1, 0, 1, 3, 1, 0, REST, 5, 3, 1, 0, 7, 5, 3, 1]
    } else if 4 <= bar <= 11 {
        [0, 1, 3, 1, 0, 1, 0, REST, 8, 7, 5, 3, 1, 0, 1, REST]
    } else if bar == 15 {
        [0, 1, 3, 5, 7, 8, 10, 12, 13, 15, REST, REST, REST, REST, REST, REST]
    } else {
        [0, REST, 1, REST, 0, REST, REST, REST, 3, REST, 1, REST, 0, REST, REST, REST]
    }
}

/// The intensity layer's counter-melody.
pub open spec fn spec_counter_pattern() -> [i8; 16] {
    [REST, REST, 7, REST, 8, REST, 7, REST, REST, REST, 5, REST, 3, REST, 1, REST]
}

/// Bass of bar `bar`: pedal tone, galloping eighths, then half time.
pub open spec fn spec_bass_pattern(bar: int) -> [i8; 16] {
    if bar <= 3 {
        [-24i8, REST, REST, REST, -24i8, REST, REST, REST, -24i8, REST, REST, REST, -24i8, REST, REST, REST]
    } else if bar <= 11 {
        [-24i8, REST, -24i8, REST, -17i8, REST, -24i8, REST, -24i8, REST, -24i8, REST, -19i8, REST, -24i8, REST]
    } else {
        [-24i8, REST, REST, REST, REST, REST, REST, REST, -24i8, REST, REST, REST, REST, REST, REST, REST]
    }
}

/// Kick of bar `bar`: building through the riser to four on the floor.
pub open spec fn spec_kick_pattern(bar: int) -> [bool; 16] {
    if bar == 0 {
        [true, false, false, false, false, false, false, false, false, false, false, false, false, false, false, false]
    } else if bar == 1 {
        [true, false, false, false, false, false, false, false, true, false, false, false, false, false, false, false]
    } else if bar == 2 {
        [true, false, false, false, true, false, false, false, true, false, false, false, false, false, false, false]
    } else {
        [true, false, false, false, true, false, false, false, true, false, false, false, true, false, false, false]
    }
}

/// Snare/hat texture of bar `bar`; the intensity layer doubles the hats
/// in the groove and the break.
pub open spec fn spec_perc_pattern(bar: int, intensity_on: bool) -> [i8; 16] {
    if bar == 0 {
        [REST, REST, REST, REST, REST, REST, REST, REST, REST, REST, REST, REST, REST, REST, REST, REST]
    } else if bar == 1 {
        [REST, REST, HAT, REST, REST, REST, HAT, REST, REST, REST, HAT, REST, REST, REST, HAT, REST]
    } else if bar == 2 {
        [REST, REST, HAT, REST, REST, REST, HAT, REST, REST, REST, HAT, REST, SNARE, REST, HAT, REST]
    } else if bar == 3 {
        [HAT, HAT, HAT, HAT, SNARE, HAT, HAT, HAT, HAT, HAT, HAT, HAT, SNARE, HAT, HAT, HAT]
    } else if 4 <= bar <= 11 && intensity_on {
        [HAT, HAT, HAT, HAT, SNARE, HAT, HAT, HAT, HAT, HAT, HAT, HAT, SNARE, HAT, HAT, HAT]
    } else if 4 <= bar <= 11 {
        [HAT, REST, HAT, REST, SNARE, REST, HAT, REST, HAT, REST, HAT, REST, SNARE, REST, HAT, REST]
    } else if bar == 15 {
        [HAT, HAT, HAT, HAT, HAT, HAT, HAT, HAT, HAT, HAT, HAT, HAT, HAT, HAT, HAT, HAT]
    } else if intensity_on {
        [HAT, REST, HAT, REST, REST, REST, HAT, REST, HAT, REST, HAT, REST, REST, REST, HAT, REST]
    } else {
        [REST, REST, HAT, REST, REST, REST, REST, REST, REST, REST, HAT, REST, REST, REST, REST, REST]
    }
}

/// Everything that sounds on song row `row` with the intensity layer in
/// state `intensity_on` (the loop repeats every `TOTAL_ROWS` rows).
pub open spec fn spec_notes(row: u32, intensity_on: bool) -> RowNotes {
    let bar = ((row / ROWS_PER_BAR) % BARS) as int;
    let r = (row % ROWS_PER_BAR) as int;
    RowNotes {
        lead: spec_lead_pattern(bar)[r],
        pulse2: if intensity_on && bar >= GROOVE_START_BAR { spec_counter_pattern()[r] } else { REST },
        bass: spec_bass_pattern(bar)[r],
        kick: spec_kick_pattern(bar)[r],
        perc: spec_perc_pattern(bar, intensity_on)[r],
    }
}

fn lead_pattern_for(bar: u32) -> (p: [i8; 16])
    ensures
        p == spec_lead_pattern(bar as int),
{
    if bar == 0 {
        [0, REST, REST, REST, REST, REST, REST, REST, REST, REST, REST, REST, REST, REST, REST, REST]
    } else if bar == 1 {
        [1, REST, REST, REST, REST, REST, REST, REST, REST, REST, REST, REST, REST, REST, REST, REST]
    } else if bar == 2 {
        [3, REST, REST, REST, REST, REST, REST, REST, REST, REST, REST, REST, REST, REST, REST, REST]
    } else if bar == 3 {
        [0, 1, 3, 5, 7, 8, 10, 12, REST, REST, REST, REST, REST, REST, REST, REST]
    } else if 4 <= bar && bar <= 11 && bar % 2 == 0 {
        [0, 1, 0, 1, 3, 1, 0, REST, 5, 3, 1, 0, 7, 5, 3, 1]
    } else if 4 <= bar && bar <= 11 {
        [0, 1, 3, 1, 0, 1, 0, REST, 8, 7, 5, 3, 1, 0, 1, REST]
    } else if bar == 15 {
        [0, 1, 3, 5, 7, 8, 10, 12, 13, 15, REST, REST, REST, REST, REST, REST]
    } else {
        [0, REST, 1, REST, 0, REST, REST, REST, 3, REST, 1, REST, 0, REST, REST, REST]
    }
}

fn counter_pattern() -> (p: [i8; 16])
    ensures
        p == spec_counter_pattern(),
{
    [REST, REST, 7, REST, 8, REST, 7, REST, REST, REST, 5, REST, 3, REST, 1, REST]
}

fn bass_pattern_for(bar: u32) -> (p: [i8; 16])
    ensures
        p == spec_bass_pattern(bar as int),
{
    if bar <= 3 {
        [-24i8, REST, REST, REST, -24i8, REST, REST, REST, -24i8, REST, REST, REST, -24i8, REST, REST, REST]
    } else if bar <= 11 {
        [-24i8, REST, -24i8, REST, -17i8, REST, -24i8, REST, -24i8, REST, -24i8, REST, -19i8, REST, -24i8, REST]
    } else {
        [-24i8, REST, REST, REST, REST, REST, REST, REST, -24i8, REST, REST, REST, REST, REST, REST, REST]
    }
}

fn kick_pattern_for(bar: u32) -> (p: [bool; 16])
    ensures
        p == spec_kick_pattern(bar as int),
{
    if bar == 0 {
        [true, false, false, false, false, false, false, false, false, false, false, false, false, false, false, false]
    } else if bar == 1 {
        [true, false, false, false, false, false, false, false, true, false, false, false, false, false, false, false]
    } else if bar == 2 {
        [true, false, false, false, true, false, false, false, true, false, false, false, false, false, false, false]
    } else {
        [true, false, false, false, true, false, false, false, true, false, false, false, true, false, false, false]
    }
}

fn perc_pattern_for(bar: u32, intensity_on: bool) -> (p: [i8; 16])
    ensures
        p == spec_perc_pattern(bar as int, intensity_on),
{
    if bar == 0 {
        [REST, REST, REST, REST, REST, REST, REST, REST, REST, REST, REST, REST, REST, REST, REST, REST]
    } else if bar == 1 {
        [REST, REST, HAT, REST, REST, REST, HAT, REST, REST, REST, HAT, REST, REST, REST, HAT, REST]
    } else if bar == 2 {
        [REST, REST, HAT, REST, REST, REST, HAT, REST, REST, REST, HAT, REST, SNARE, REST, HAT, REST]
    } else if bar == 3 {
        [HAT, HAT, HAT, HAT, SNARE, HAT, HAT, HAT, HAT, HAT, HAT, HAT, SNARE, HAT, HAT, HAT]
    } else if 4 <= bar && bar <= 11 && intensity_on {
        [HAT, HAT, HAT, HAT, SNARE, HAT, HAT, HAT, HAT, HAT, HAT, HAT, SNARE, HAT, HAT, HAT]
    } else if 4 <= bar && bar <= 11 {
        [HAT, REST, HAT, REST, SNARE, REST, HAT, REST, HAT, REST, HAT, REST, SNARE, REST, HAT, REST]
    } else if bar == 15 {
        [HAT, HAT, HAT, HAT, HAT, HAT, HAT, HAT, HAT, HAT, HAT, HAT, HAT, HAT, HAT, HAT]
    } else if intensity_on {
        [HAT, REST, HAT, REST, REST, REST, HAT, REST, HAT, REST, HAT, REST, REST, REST, HAT, REST]
    } else {
        [REST, REST, HAT, REST, REST, REST, REST, REST, REST, REST, HAT, REST, REST, REST, REST, REST]
    }
}

/// Whether song row `row` carries a kick.
pub fn kick_on_row(row: u32) -> (k: bool)
    ensures
        k == spec_kick_pattern(((row / ROWS_PER_BAR) % BARS) as int)[(row % ROWS_PER_BAR) as int],
{
    let bar = (row / ROWS_PER_BAR) % BARS;
    let r = (row % ROWS_PER_BAR) as usize;
    kick_pattern_for(bar)[r]
}

/// The notes of song row `row` with the intensity layer in state
/// `intensity_on`.
pub fn fire_row(row: u32, intensity_on: bool) -> (n: RowNotes)
    ensures
        n == spec_notes(row, intensity_on),
{
    let bar = (row / ROWS_PER_BAR) % BARS;
    let r = (row % ROWS_PER_BAR) as usize;
    let pulse2 = if intensity_on && bar >= GROOVE_START_BAR {
        counter_pattern()[r]
    } else {
        REST
    };
    RowNotes {
        lead: lead_pattern_for(bar)[r],
        pulse2,
        bass: bass_pattern_for(bar)[r],
        kick: kick_pattern_for(bar)[r],
        perc: perc_pattern_for(bar, intensity_on)[r],
    }
}

} // verus!
