//! Four-channel music tracker: the menu and battle themes, each a fixed
//! loop of 16-row bars, scheduled sample-accurately from one running sample
//! count.
//!
//! Pitched channels hold semitone offsets from A2, or `REST`. The drums
//! channel holds `SNARE`/`HAT`/`REST`, and the kick is a separate flag so
//! it can sound on the same row as a snare.
//!
//! Row `k` of a song (counting from the first row ever played) starts at
//! sample `floor(60 * SAMPLE_RATE * k / (BPM * 4))` exactly: each row is
//! `60 * SAMPLE_RATE / (BPM * 4)` samples by integer division, and a
//! remainder accumulator adds one sample whenever the remainders add up to
//! a whole one.
use vstd::prelude::*;
use crate::audio::SAMPLE_RATE;

pub mod battle;
pub mod menu;

verus! {

/// Which song a `Tracker` plays.
#[derive(Clone, Copy, Debug, PartialEq, Eq, Structural)]
pub enum SongId {
    Menu,
    Battle,
}

/// Rows per bar (16th notes in 4/4).
pub const ROWS_PER_BAR: u32 = 16;

/// Rest marker in every pattern.
pub const REST: i8 = -128;

/// Drum event codes (the kick is a separate flag).
pub const SNARE: i8 = 0;
pub const HAT: i8 = 1;

/// Samples in one minute: `60 * SAMPLE_RATE`.
pub const ROW_NUMERATOR: u64 = 2_646_000;

/// What sounds on one row: pulse 1 (lead), pulse 2 (menu pad, or the
/// battle theme's counter-melody), bass, kick, and the drums channel.
#[derive(Clone, Copy, Debug, PartialEq, Eq, Structural)]
pub struct RowNotes {
    pub lead: i8,
    pub pulse2: i8,
    pub bass: i8,
    pub kick: bool,
    pub perc: i8,
}

/// A row that fired during `Tracker::advance`: the sample offset into the
/// advanced span at which it starts, its song row, its kick flag, and its
/// notes.
#[derive(Clone, Copy, Debug, PartialEq, Eq, Structural)]
pub struct RowFire {
    pub offset: u32,
    pub row: u32,
    pub kick: bool,
    pub notes: RowNotes,
}

pub open spec fn spec_bpm(song: SongId) -> u32 {
    match song {
        SongId::Menu => menu::BPM,
        SongId::Battle => battle::BPM,
    }
}

pub open spec fn spec_total_rows(song: SongId) -> u32 {
    match song {
        SongId::Menu => menu::TOTAL_ROWS,
        SongId::Battle => battle::TOTAL_ROWS,
    }
}

/// Rows per minute times... the divisor of the row timing: `BPM * 4`.
pub open spec fn spec_denom(song: SongId) -> int {
    spec_bpm(song) * 4
}

/// First sample of the `k`-th row played (from 0).
pub open spec fn spec_row_start(song: SongId, k: nat) -> int {
    (ROW_NUMERATOR * k) / spec_denom(song)
}

/// Rows begun once `t` samples have been played: the least `k` whose row
/// starts at or after `t`.
pub open spec fn spec_rows_begun(song: SongId, t: nat) -> nat {
    ((t * spec_denom(song) + ROW_NUMERATOR - 1) / (ROW_NUMERATOR as int)) as nat
}

/// The kick flag of song row `row`.
pub open spec fn spec_row_kick(song: SongId, row: u32) -> bool {
    match song {
        SongId::Menu => menu::spec_kick_pattern()[(row % ROWS_PER_BAR) as int],
        SongId::Battle => battle::spec_kick_pattern(((row / ROWS_PER_BAR) % battle::BARS) as int)[(row
            % ROWS_PER_BAR) as int],
    }
}

/// The notes of song row `row` with the intensity layer in state `on`.
pub open spec fn spec_row_notes(song: SongId, row: u32, on: bool) -> RowNotes {
    match song {
        SongId::Menu => menu::spec_notes(row),
        SongId::Battle => battle::spec_notes(row, on),
    }
}

/// Intensity after the rows `first..=last` have fired, starting from `on`
/// with `pending` requested: the request latches at the first bar start
/// among those rows, and nothing changes if there is none.
pub open spec fn spec_latched(on: bool, pending: bool, first: int, last: int) -> bool {
    if first <= last && (last / 16) * 16 >= first {
        pending
    } else {
        on
    }
}

/// The observable state of a tracker: its song, the row sounding, the
/// intensity layer (in effect and requested), how many rows have begun and
/// how many samples have been played.
pub ghost struct TrackerView {
    pub song: SongId,
    pub row: u32,
    pub intensity_on: bool,
    pub intensity_pending: bool,
    pub fired: nat,
    pub consumed: nat,
}

/// The tracker after `samples` more samples with no change of request.
pub open spec fn spec_advance_view(v: TrackerView, samples: nat) -> TrackerView {
    if samples == 0 {
        v
    } else {
        let t = v.consumed + samples;
        let f = spec_rows_begun(v.song, t);
        TrackerView {
            row: ((f - 1) % (spec_total_rows(v.song) as int)) as u32,
            intensity_on: spec_latched(v.intensity_on, v.intensity_pending, v.fired as int, f - 1),
            fired: f,
            consumed: t,
            ..v
        }
    }
}

/// The `a`-th row (from 0) as it fires during an advance from `v`.
pub open spec fn spec_fire(v: TrackerView, a: nat) -> RowFire {
    let row = (a % (spec_total_rows(v.song) as nat)) as u32;
    RowFire {
        offset: (spec_row_start(v.song, a) - v.consumed) as u32,
        row,
        kick: spec_row_kick(v.song, row),
        notes: spec_row_notes(v.song, row, spec_latched(v.intensity_on, v.intensity_pending, v.fired as int, a as int)),
    }
}

/// The relations every reachable tracker state satisfies.
pub open spec fn view_wf(v: TrackerView) -> bool {
    &&& v.fired == spec_rows_begun(v.song, v.consumed)
    &&& v.fired == 0 ==> v.row == 0
    &&& v.fired > 0 ==> v.row == (v.fired - 1) % (spec_total_rows(v.song) as int)
}

/// The 4-channel music tracker.
pub struct Tracker {
    song: SongId,
    bpm: u32,
    total_rows: u32,
    row: u32,
    samples_until_next_row: u32,
    row_accum: u32,
    started: bool,
    intensity_on: bool,
    intensity_pending: bool,
    fired: Ghost<nat>,
    consumed: Ghost<nat>,
}

impl View for Tracker {
    type V = TrackerView;

    closed spec fn view(&self) -> TrackerView {
        TrackerView {
            song: self.song,
            row: self.row,
            intensity_on: self.intensity_on,
            intensity_pending: self.intensity_pending,
            fired: self.fired@,
            consumed: self.consumed@,
        }
    }
}

proof fn lemma_row_len(n: int, d: int, j: nat)
    requires
        d > 0,
        n >= 0,
    ensures
        (n * (j + 1)) / d - (n * j) / d == n / d + (if ((n % d) * j) % d + n % d >= d { 1int } else { 0int }),
        ((n % d) * (j + 1)) % d == (if ((n % d) * j) % d + n % d >= d {
            ((n % d) * j) % d + n % d - d
        } else {
            ((n % d) * j) % d + n % d
        }),
{
    let base = n / d;
    let rem = n % d;
    vstd::arithmetic::div_mod::lemma_fundamental_div_mod(n, d);
    vstd::arithmetic::div_mod::lemma_mod_bound(n, d);
    let rj = rem * j;
    vstd::arithmetic::mul::lemma_mul_nonnegative(rem, j as int);
    let q = rj / d;
    let m = rj % d;
    vstd::arithmetic::div_mod::lemma_fundamental_div_mod(rj, d);
    vstd::arithmetic::div_mod::lemma_mod_bound(rj, d);
    assert(n * j == (base * j + q) * d + m) by (nonlinear_arith)
        requires
            n == d * base + rem,
            rj == rem * j,
            rj == d * q + m,
    ;
    vstd::arithmetic::div_mod::lemma_fundamental_div_mod_converse(n * j, d, base * j + q, m);
    assert(rem * (j + 1) == rj + rem) by (nonlinear_arith)
        requires
            rj == rem * j,
    ;
    assert(n * (j + 1) == n * j + n) by (nonlinear_arith);
    if m + rem >= d {
        assert(rem * (j + 1) == (q + 1) * d + (m + rem - d)) by (nonlinear_arith)
            requires
                rem * (j + 1) == rj + rem,
                rj == d * q + m,
        ;
        vstd::arithmetic::div_mod::lemma_fundamental_div_mod_converse(rem * (j + 1), d, q + 1, m + rem - d);
        assert(n * (j + 1) == (base * j + q + base + 1) * d + (m + rem - d)) by (nonlinear_arith)
            requires
                n * (j + 1) == n * j + n,
                n * j == (base * j + q) * d + m,
                n == d * base + rem,
        ;
        vstd::arithmetic::div_mod::lemma_fundamental_div_mod_converse(
            n * (j + 1),
            d,
            base * j + q + base + 1,
            m + rem - d,
        );
    } else {
        assert(rem * (j + 1) == q * d + (m + rem)) by (nonlinear_arith)
            requires
                rem * (j + 1) == rj + rem,
                rj == d * q + m,
        ;
        vstd::arithmetic::div_mod::lemma_fundamental_div_mod_converse(rem * (j + 1), d, q, m + rem);
        assert(n * (j + 1) == (base * j + q + base) * d + (m + rem)) by (nonlinear_arith)
            requires
                n * (j + 1) == n * j + n,
                n * j == (base * j + q) * d + m,
                n == d * base + rem,
        ;
        vstd::arithmetic::div_mod::lemma_fundamental_div_mod_converse(n * (j + 1), d, base * j + q + base, m + rem);
    }
}

/// A sample count strictly inside row `k - 1`'s span (past its start, up
/// to its end) has begun exactly `k` rows.
proof fn lemma_rows_begun(song: SongId, k: nat, t: nat)
    requires
        k >= 1,
        spec_row_start(song, (k - 1) as nat) < t <= spec_row_start(song, k),
    ensures
        spec_rows_begun(song, t) == k,
{
    let n = ROW_NUMERATOR as int;
    let d = spec_denom(song);
    let a = n * (k - 1);
    let b = n * k;
    vstd::arithmetic::div_mod::lemma_fundamental_div_mod(a, d);
    vstd::arithmetic::div_mod::lemma_mod_bound(a, d);
    vstd::arithmetic::div_mod::lemma_fundamental_div_mod(b, d);
    vstd::arithmetic::div_mod::lemma_mod_bound(b, d);
    assert(a < t * d) by (nonlinear_arith)
        requires
            a == d * (a / d) + a % d,
            a % d < d,
            a / d + 1 <= t,
            d > 0,
    ;
    assert(t * d <= b) by (nonlinear_arith)
        requires
            b == d * (b / d) + b % d,
            0 <= b % d,
            t <= b / d,
            d > 0,
    ;
    assert(a == n * k - n) by (nonlinear_arith)
        requires
            a == n * (k - 1),
    ;
    let x = t * d + n - 1;
    assert(n * k <= x < n * k + n);
    vstd::arithmetic::div_mod::lemma_fundamental_div_mod_converse(x, n, k as int, x - n * k);
}

/// Rows of the same bar share their bar start.
proof fn lemma_bar_start(a: int)
    requires
        a >= 1,
        a % 16 != 0,
    ensures
        (a / 16) * 16 == ((a - 1) / 16) * 16,
{
    vstd::arithmetic::div_mod::lemma_fundamental_div_mod(a, 16);
    vstd::arithmetic::div_mod::lemma_fundamental_div_mod_converse(a - 1, 16, a / 16, a % 16 - 1);
}

impl Tracker {
    /// Internal consistency: the row timing, row counter and accumulator
    /// agree with the rows begun and samples played.
    pub closed spec fn wf(&self) -> bool {
        &&& self.bpm == spec_bpm(self.song)
        &&& self.total_rows == spec_total_rows(self.song)
        &&& self.row_accum == ((ROW_NUMERATOR % (spec_denom(self.song) as u64)) * self.fired@) % spec_denom(
            self.song,
        )
        &&& self.started == (self.fired@ > 0)
        &&& self.fired@ == 0 ==> self.consumed@ == 0 && self.samples_until_next_row == 0 && self.row == 0
        &&& self.fired@ > 0 ==> {
            &&& spec_row_start(self.song, (self.fired@ - 1) as nat) < self.consumed@
            &&& self.consumed@ <= spec_row_start(self.song, self.fired@)
            &&& self.samples_until_next_row == spec_row_start(self.song, self.fired@) - self.consumed@
            &&& self.row == (self.fired@ - 1) % (self.total_rows as int)
        }
    }

    /// The state a well-formed tracker shows satisfies `view_wf`.
    pub proof fn lemma_view_wf(&self)
        requires
            self.wf(),
        ensures
            view_wf(self@),
    {
        if self.fired@ > 0 {
            lemma_rows_begun(self.song, self.fired@, self.consumed@);
        }
    }

    /// A tracker at the start of `song`: nothing played yet; the first
    /// advance fires row 0 immediately.
    pub fn new(song: SongId) -> (t: Tracker)
        ensures
            t.wf(),
            t@ == (TrackerView {
                song,
                row: 0,
                intensity_on: false,
                intensity_pending: false,
                fired: 0,
                consumed: 0,
            }),
    {
        let (bpm, total_rows) = match song {
            SongId::Menu => (menu::BPM, menu::TOTAL_ROWS),
            SongId::Battle => (battle::BPM, battle::TOTAL_ROWS),
        };
        proof {
            let d = spec_denom(song);
            assert(((ROW_NUMERATOR % (d as u64)) * 0nat) % d == 0) by {
                vstd::arithmetic::div_mod::lemma_small_mod(0, d as nat);
            }
        }
        Tracker {
            song,
            bpm,
            total_rows,
            row: 0,
            samples_until_next_row: 0,
            row_accum: 0,
            started: false,
            intensity_on: false,
            intensity_pending: false,
            fired: Ghost(0),
            consumed: Ghost(0),
        }
    }

    /// Request the intensity layer on or off; it takes effect at the next
    /// bar start, never mid-bar.
    pub fn set_intensity(&mut self, on: bool)
        requires
            old(self).wf(),
        ensures
            final(self).wf(),
            final(self)@ == (TrackerView { intensity_pending: on, ..old(self)@ }),
    {
        self.intensity_pending = on;
    }

    /// The song row sounding now.
    pub fn row_index(&self) -> (r: u32)
        ensures
            r == self@.row,
    {
        self.row
    }

    /// Whether the intensity layer is in effect now.
    pub fn intensity_on(&self) -> (b: bool)
        ensures
            b == self@.intensity_on,
    {
        self.intensity_on
    }

    /// Whether the row sounding now carries a kick.
    pub fn kick_on_current_row(&self) -> (k: bool)
        ensures
            k == spec_row_kick(self@.song, self@.row),
    {
        match self.song {
            SongId::Menu => menu::kick_on_row(self.row),
            SongId::Battle => battle::kick_on_row(self.row),
        }
    }

    /// Length of the row that starts now, advancing the remainder
    /// accumulator.
    fn row_len_samples(&mut self) -> (len: u32)
        requires
            old(self).bpm == spec_bpm(old(self).song),
            old(self).row_accum == ((ROW_NUMERATOR % (spec_denom(old(self).song) as u64)) * old(self).fired@)
                % spec_denom(old(self).song),
        ensures
            len == spec_row_start(old(self).song, old(self).fired@ + 1) - spec_row_start(
                old(self).song,
                old(self).fired@,
            ),
            len >= 1,
            final(self).row_accum == ((ROW_NUMERATOR % (spec_denom(old(self).song) as u64)) * (old(self).fired@
                + 1)) % spec_denom(old(self).song),
            *final(self) == (Tracker { row_accum: final(self).row_accum, ..*old(self) }),
    {
        let numerator: u64 = 60 * SAMPLE_RATE as u64;
        let denom: u64 = self.bpm as u64 * 4;
        let base = (numerator / denom) as u32;
        let rem = (numerator % denom) as u32;
        proof {
            lemma_row_len(ROW_NUMERATOR as int, denom as int, self.fired@);
            vstd::arithmetic::div_mod::lemma_mod_bound(ROW_NUMERATOR as int, denom as int);
            assert(numerator == ROW_NUMERATOR);
            if denom == 448 {
                assert(base == 5906);
            } else {
                assert(denom == 592);
                assert(base == 4469);
            }
        }
        self.row_accum = self.row_accum + rem;
        if self.row_accum >= denom as u32 {
            self.row_accum = self.row_accum - denom as u32;
            base + 1
        } else {
            base
        }
    }

    /// Latch the intensity request at a bar start and return the notes of
    /// the current row.
    fn fire_row(&mut self) -> (n: RowNotes)
        ensures
            final(self).intensity_on == (if old(self).row % ROWS_PER_BAR == 0 {
                old(self).intensity_pending
            } else {
                old(self).intensity_on
            }),
            *final(self) == (Tracker { intensity_on: final(self).intensity_on, ..*old(self) }),
            n == spec_row_notes(old(self).song, old(self).row, final(self).intensity_on),
    {
        if self.row % ROWS_PER_BAR == 0 {
            self.intensity_on = self.intensity_pending;
        }
        match self.song {
            SongId::Menu => menu::fire_row(self.row),
            SongId::Battle => battle::fire_row(self.row, self.intensity_on),
        }
    }

    /// Advance the song by `samples` samples, returning every row that
    /// begins within them, in order, for the host to sound. Scheduling is
    /// the same however the samples are split across calls.
    pub fn advance(&mut self, samples: u32) -> (fires: Vec<RowFire>)
        requires
            old(self).wf(),
        ensures
            final(self).wf(),
            final(self)@ == spec_advance_view(old(self)@, samples as nat),
            fires@.len() == final(self)@.fired - old(self)@.fired,
            forall|i: int|
                0 <= i < fires@.len() ==> #[trigger] fires@[i] == spec_fire(old(self)@, (old(self)@.fired + i) as nat),
            forall|i: int| 0 <= i < fires@.len() ==> #[trigger] fires@[i].offset < samples,
    {
        let ghost v0 = self@;
        let mut fires: Vec<RowFire> = Vec::new();
        let mut remaining = samples;
        while remaining > 0
            invariant
                self.wf(),
                remaining <= samples,
                samples == 0 ==> self@ == v0,
                self.song == v0.song,
                self.intensity_pending == v0.intensity_pending,
                self.consumed@ == v0.consumed + (samples - remaining),
                self.fired@ >= v0.fired,
                self.fired@ > v0.fired ==> self.intensity_on == spec_latched(
                    v0.intensity_on,
                    v0.intensity_pending,
                    v0.fired as int,
                    self.fired@ - 1,
                ),
                self.fired@ == v0.fired ==> self.intensity_on == v0.intensity_on,
                fires@.len() == self.fired@ - v0.fired,
                forall|i: int|
                    0 <= i < fires@.len() ==> #[trigger] fires@[i] == spec_fire(v0, (v0.fired + i) as nat),
                forall|i: int| 0 <= i < fires@.len() ==> #[trigger] fires@[i].offset < samples,
            decreases remaining,
        {
            if self.samples_until_next_row == 0 {
                let ghost a = self.fired@;
                let ghost on_before = self.intensity_on;
                proof {
                    if a > 0 {
                        vstd::arithmetic::div_mod::lemma_mod_bound(a - 1, self.total_rows as int);
                    }
                }
                if self.started {
                    proof {
                        vstd::arithmetic::div_mod::lemma_add_mod_noop(a - 1, 1, self.total_rows as int);
                        vstd::arithmetic::div_mod::lemma_small_mod(1, self.total_rows as nat);
                        vstd::arithmetic::div_mod::lemma_mod_bound(a - 1, self.total_rows as int);
                        vstd::arithmetic::div_mod::lemma_mod_twice(a - 1 + 1, self.total_rows as int);
                    }
                    self.row = (self.row + 1) % self.total_rows;
                }
                self.started = true;
                assert(self.row == (a as int) % (self.total_rows as int));
                proof {
                    vstd::arithmetic::div_mod::lemma_mod_mod(a as int, 16, self.total_rows as int / 16);
                    assert(self.total_rows == 16 * (self.total_rows / 16));
                    if a > v0.fired && a % 16 != 0 {
                        lemma_bar_start(a as int);
                    }
                }
                let notes = self.fire_row();
                assert(self.intensity_on == spec_latched(v0.intensity_on, v0.intensity_pending, v0.fired as int, a as int));
                let kick = self.kick_on_current_row();
                fires.push(RowFire { offset: samples - remaining, row: self.row, kick, notes });
                self.samples_until_next_row = self.row_len_samples();
                self.fired = Ghost(a + 1);
                assert(fires@[fires@.len() - 1] == spec_fire(v0, a));
            }
            let step = if remaining < self.samples_until_next_row {
                remaining
            } else {
                self.samples_until_next_row
            };
            self.samples_until_next_row = self.samples_until_next_row - step;
            remaining = remaining - step;
            self.consumed = Ghost((self.consumed@ + step) as nat);
        }
        proof {
            if samples > 0 {
                assert(self.fired@ > 0);
                lemma_rows_begun(self.song, self.fired@, self.consumed@);
                let w = spec_advance_view(v0, samples as nat);
                assert(self@.fired == w.fired);
                assert(self@.consumed == w.consumed);
                assert(self@.row == w.row);
                assert(self@.intensity_on == w.intensity_on);
                assert(self@.song == w.song);
                assert(self@.intensity_pending == w.intensity_pending);
                assert(self@ == spec_advance_view(v0, samples as nat));
            }
        }
        fires
    }
}

/// Two advances in a row schedule exactly as one advance over their total:
/// rows begun, row sounding, intensity and samples played all agree.
pub proof fn law_advance_is_chunking_independent(v: TrackerView, a: nat, b: nat)
    requires
        view_wf(v),
    ensures
        spec_advance_view(spec_advance_view(v, a), b) == spec_advance_view(v, a + b),
{
    if a > 0 && b > 0 {
        let v1 = spec_advance_view(v, a);
        let f0 = v.fired as int;
        let f1 = v1.fired as int;
        let v2 = spec_advance_view(v1, b);
        let f2 = v2.fired as int;
        lemma_rows_begun_monotonic(v.song, v.consumed, v.consumed + a);
        lemma_rows_begun_monotonic(v.song, v.consumed + a, v.consumed + a + b);
        lemma_latched_composes(v.intensity_on, v.intensity_pending, f0, f1, f2);
    }
}

/// More samples played never means fewer rows begun.
proof fn lemma_rows_begun_monotonic(song: SongId, t1: nat, t2: nat)
    requires
        t1 <= t2,
    ensures
        spec_rows_begun(song, t1) <= spec_rows_begun(song, t2),
{
    let d = spec_denom(song);
    assert(t1 * d <= t2 * d) by (nonlinear_arith)
        requires
            t1 <= t2,
            d > 0,
    ;
    vstd::arithmetic::div_mod::lemma_div_is_ordered(
        t1 * d + ROW_NUMERATOR - 1,
        t2 * d + ROW_NUMERATOR - 1,
        ROW_NUMERATOR as int,
    );
}

proof fn lemma_latched_composes(on: bool, p: bool, f0: int, f1: int, f2: int)
    requires
        0 <= f0 <= f1 <= f2,
    ensures
        spec_latched(spec_latched(on, p, f0, f1 - 1), p, f1, f2 - 1) == spec_latched(on, p, f0, f2 - 1),
{
    if f1 < f2 && ((f2 - 1) / 16) * 16 < f1 {
        if f0 < f1 {
            vstd::arithmetic::div_mod::lemma_div_is_ordered(f1 - 1, f2 - 1, 16);
            vstd::arithmetic::div_mod::lemma_fundamental_div_mod(f1 - 1, 16);
            vstd::arithmetic::div_mod::lemma_fundamental_div_mod(f2 - 1, 16);
            vstd::arithmetic::div_mod::lemma_mod_bound(f1 - 1, 16);
            vstd::arithmetic::div_mod::lemma_mod_bound(f2 - 1, 16);
            assert(((f2 - 1) / 16) * 16 == ((f1 - 1) / 16) * 16);
        }
    } else if f1 < f2 {
        if f0 < f1 {
            vstd::arithmetic::div_mod::lemma_div_is_ordered(f1 - 1, f2 - 1, 16);
        }
    }
}

/// Whether the `k`-th row played starts a bar.
pub open spec fn starts_bar(k: int) -> bool {
    k % 16 == 0
}

/// The intensity request takes effect only at a bar start: an advance in
/// which no begun row starts a bar leaves the layer as it was, and one in
/// which a row starts a bar switches it to the request.
pub proof fn law_intensity_latches_only_at_bar_starts(v: TrackerView, samples: nat)
    requires
        view_wf(v),
    ensures
        (forall|k: int| v.fired <= k < spec_advance_view(v, samples).fired ==> !#[trigger] starts_bar(k))
            ==> spec_advance_view(v, samples).intensity_on == v.intensity_on,
        (exists|k: int| v.fired <= k < spec_advance_view(v, samples).fired && #[trigger] starts_bar(k))
            ==> spec_advance_view(v, samples).intensity_on == v.intensity_pending,
{
    if samples > 0 {
        let f = spec_advance_view(v, samples).fired as int;
        let f0 = v.fired as int;
        lemma_rows_begun_monotonic(v.song, v.consumed, v.consumed + samples);
        if f0 <= f - 1 {
            let m = ((f - 1) / 16) * 16;
            vstd::arithmetic::div_mod::lemma_fundamental_div_mod(f - 1, 16);
            vstd::arithmetic::div_mod::lemma_mod_bound(f - 1, 16);
            assert(m % 16 == 0) by {
                vstd::arithmetic::div_mod::lemma_mod_multiples_basic((f - 1) / 16, 16);
            }
            if exists|k: int| f0 <= k < f && #[trigger] starts_bar(k) {
                let k = choose|k: int| f0 <= k < f && #[trigger] starts_bar(k);
                vstd::arithmetic::div_mod::lemma_fundamental_div_mod(k, 16);
                vstd::arithmetic::div_mod::lemma_div_is_ordered(k, f - 1, 16);
                assert(k == (k / 16) * 16);
            }
            if m >= f0 {
                assert(f0 <= m < f && starts_bar(m));
            }
        }
    }
}

/// Row `k` has begun after `t` samples exactly when it starts before `t`.
proof fn lemma_begun_iff_started(song: SongId, k: nat, t: nat)
    ensures
        (k < spec_rows_begun(song, t)) == (spec_row_start(song, k) < t),
{
    let n = ROW_NUMERATOR as int;
    let d = spec_denom(song);
    assert(d > 0);
    let nk = n * (k as int);
    vstd::arithmetic::div_mod::lemma_fundamental_div_mod(nk, d);
    vstd::arithmetic::div_mod::lemma_mod_bound(nk, d);
    let q = nk / d;
    let r = nk % d;
    assert((q < t) == (nk < (t as int) * d)) by (nonlinear_arith)
        requires
            nk == d * q + r,
            0 <= r < d,
            d > 0,
    ;
    let x = (t as int) * d + n - 1;
    vstd::arithmetic::div_mod::lemma_fundamental_div_mod(x, n);
    vstd::arithmetic::div_mod::lemma_mod_bound(x, n);
    let qq = x / n;
    let rr = x % n;
    assert(((k as int) < qq) == (nk < (t as int) * d)) by (nonlinear_arith)
        requires
            x == n * qq + rr,
            0 <= rr < n,
            x == (t as int) * d + n - 1,
            nk == n * (k as int),
            n > 0,
    ;
}

/// Splitting a render in two sounds the same rows: every row begun in the
/// second part sits at the same absolute sample, with the same song row,
/// kick and notes, as when the whole span is rendered in one call. (Rows of
/// the first part are fired from the same state either way.)
pub proof fn law_split_render_sounds_the_same_rows(v: TrackerView, a: nat, b: nat, k: nat)
    requires
        view_wf(v),
        a + b <= u32::MAX,
        spec_advance_view(v, a).fired <= k < spec_advance_view(v, a + b).fired,
    ensures
        ({
            let v1 = spec_advance_view(v, a);
            let whole = spec_fire(v, k);
            let split = spec_fire(v1, k);
            &&& v1.consumed + split.offset == v.consumed + whole.offset
            &&& split.row == whole.row
            &&& split.kick == whole.kick
            &&& split.notes == whole.notes
        }),
{
    if a > 0 {
        let v1 = spec_advance_view(v, a);
        lemma_begun_iff_started(v.song, k, v.consumed + a);
        lemma_begun_iff_started(v.song, k, v.consumed + a + b);
        lemma_rows_begun_monotonic(v.song, v.consumed, v.consumed + a);
        lemma_latched_composes(v.intensity_on, v.intensity_pending, v.fired as int, v1.fired as int, k + 1int);
    }
}

/// The row sounding is a function of the samples played alone: once `N >= 1`
/// samples have been played, it is the last row `j` whose start
/// `floor(j * ROW_NUMERATOR / (4 * BPM))` lies before `N`, taken modulo the
/// song's row count, however the samples were split into advances.
pub proof fn law_row_is_the_last_row_started(v: TrackerView)
    requires
        view_wf(v),
        v.consumed >= 1,
    ensures
        v.fired >= 1,
        spec_row_start(v.song, (v.fired - 1) as nat) < v.consumed,
        spec_row_start(v.song, v.fired) >= v.consumed,
        v.row == ((v.fired - 1) % (spec_total_rows(v.song) as int)) as u32,
{
    lemma_begun_iff_started(v.song, 0, v.consumed);
    lemma_begun_iff_started(v.song, (v.fired - 1) as nat, v.consumed);
    lemma_begun_iff_started(v.song, v.fired, v.consumed);
}

/// Consecutive rows differ in length by at most one sample: every row lasts
/// `60 * SAMPLE_RATE / (BPM * 4)` samples, or one more.
pub proof fn law_row_lengths_differ_by_at_most_one(song: SongId, k: nat)
    ensures
        spec_row_start(song, k + 1) - spec_row_start(song, k) == (ROW_NUMERATOR as int) / spec_denom(song)
            || spec_row_start(song, k + 1) - spec_row_start(song, k) == (ROW_NUMERATOR as int) / spec_denom(song)
            + 1,
{
    lemma_row_len(ROW_NUMERATOR as int, spec_denom(song), k);
}

} // verus!
