//! Garage parts and build resolution. Slot 0 is the Frame, which picks a
//! roster silhouette wholesale; slots 1..=4 are stat-delta parts (Blade
//! `ATK+/DEF-`, Disk `WGT+/SPD-`, Ridge `STA+/MTR-`, Tip `SPD+/WGT-`), each
//! carrying one plus and one minus. Base stats are 40 across the board, so
//! the all-index-0 build totals exactly 300.
use vstd::prelude::*;
use crate::combat::{SpecialId, spec_special_of};
use crate::physics::Stats;
use crate::roster::{Silhouette, preset, spec_preset_accent, spec_preset_spin_dir, spec_silhouette_index};

verus! {

/// One stat-delta part: a name plus signed deltas on all six stats.
#[derive(Clone, Copy, Debug, PartialEq, Eq)]
pub struct Part {
    pub name: &'static str,
    pub d_atk: i8,
    pub d_def: i8,
    pub d_sta: i8,
    pub d_wgt: i8,
    pub d_spd: i8,
    pub d_mtr: i8,
}

/// One Frame choice: a name plus the roster silhouette it borrows.
#[derive(Clone, Copy, Debug, PartialEq, Eq)]
pub struct Frame {
    pub name: &'static str,
    pub silhouette: Silhouette,
}

/// The resolved custom top a garage build produces.
#[derive(Clone, Copy, Debug, PartialEq)]
pub struct CustomBuild {
    pub stats: Stats,
    pub silhouette: Silhouette,
    pub special_id: SpecialId,
    pub accent: u32,
    pub spin_dir: i8,
}

/// Number of Frame choices.
pub const FRAME_COUNT: usize = 4;

/// Number of choices in each stat-delta slot.
pub const PARTS_PER_SLOT: usize = 4;

/// Number of stat-delta slots (indices 1..=4 of a build).
pub const DELTA_SLOTS: usize = 4;

/// Base value of every stat before part deltas.
pub const BASE_STAT: i32 = 40;

/// The all-index-0 default build.
pub const DEFAULT_PARTS: [u8; 5] = [0, 0, 0, 0, 0];

/// Silhouette of Frame `i`: Cleaver, Bulwark, Everspin, Riptide.
pub open spec fn spec_frame_silhouette(i: int) -> Silhouette {
    if i == 0 {
        Silhouette::Cleaver
    } else if i == 1 {
        Silhouette::Bulwark
    } else if i == 2 {
        Silhouette::Everspin
    } else {
        Silhouette::Riptide
    }
}

/// Name of Frame `i`.
pub open spec fn spec_frame_name(i: int) -> &'static str {
    if i == 0 {
        "Cleaver Frame"
    } else if i == 1 {
        "Bulwark Frame"
    } else if i == 2 {
        "Everspin Frame"
    } else {
        "Riptide Frame"
    }
}

/// Name of part `idx` in stat-delta slot `slot`.
pub open spec fn spec_part_name(slot: int, idx: int) -> &'static str {
    if slot == 0 {
        if idx == 0 { "Blade Mk0" } else if idx == 1 { "Blade Mk1" } else if idx == 2 { "Blade Guard" } else { "Blade Razor" }
    } else if slot == 1 {
        if idx == 0 { "Disk Mk0" } else if idx == 1 { "Disk Mk1" } else if idx == 2 { "Disk Guard" } else { "Disk Heavy" }
    } else if slot == 2 {
        if idx == 0 { "Ridge Mk0" } else if idx == 1 { "Ridge Mk1" } else if idx == 2 { "Ridge Guard" } else { "Ridge Endless" }
    } else {
        if idx == 0 { "Tip Mk0" } else if idx == 1 { "Tip Mk1" } else if idx == 2 { "Tip Guard" } else { "Tip Needle" }
    }
}

/// The (plus, minus) pair of part `idx` in stat-delta slot `slot`.
pub open spec fn spec_pair(slot: int, idx: int) -> (int, int) {
    if slot == 0 {
        if idx == 0 { (18, -3) } else if idx == 1 { (28, -14) } else if idx == 2 { (6, -1) } else { (34, -20) }
    } else if slot == 1 {
        if idx == 0 { (18, -3) } else if idx == 1 { (26, -13) } else if idx == 2 { (6, -1) } else { (30, -18) }
    } else if slot == 2 {
        if idx == 0 { (18, -3) } else if idx == 1 { (24, -11) } else if idx == 2 { (6, -1) } else { (32, -19) }
    } else {
        if idx == 0 { (18, -3) } else if idx == 1 { (25, -11) } else if idx == 2 { (6, -1) } else { (30, -17) }
    }
}

/// Stat numbering: 0 ATK, 1 DEF, 2 STA, 3 WGT, 4 SPD, 5 MTR. The stat each
/// slot raises and the one it lowers.
pub open spec fn spec_slot_stats(slot: int) -> (int, int) {
    if slot == 0 {
        (0, 1)
    } else if slot == 1 {
        (3, 4)
    } else if slot == 2 {
        (2, 5)
    } else {
        (4, 3)
    }
}

/// Delta that part `idx` of slot `slot` applies to stat `stat`.
pub open spec fn spec_delta(slot: int, idx: int, stat: int) -> int {
    let (plus_stat, minus_stat) = spec_slot_stats(slot);
    let (plus, minus) = spec_pair(slot, idx);
    if stat == plus_stat {
        plus
    } else if stat == minus_stat {
        minus
    } else {
        0
    }
}

/// Part index actually used for a stat-delta slot: out-of-range indices
/// fall back to 0.
pub open spec fn spec_effective_index(raw: u8) -> int {
    if raw < 4 {
        raw as int
    } else {
        0
    }
}

/// Clamp into `0..=100`.
pub open spec fn spec_clamp_stat(v: int) -> u8 {
    if v < 0 {
        0u8
    } else if v > 100 {
        100u8
    } else {
        v as u8
    }
}

/// Unclamped value of stat `stat` for build `indices`.
pub open spec fn spec_raw_stat(indices: Seq<u8>, stat: int) -> int {
    BASE_STAT + spec_delta(0, spec_effective_index(indices[1]), stat)
        + spec_delta(1, spec_effective_index(indices[2]), stat)
        + spec_delta(2, spec_effective_index(indices[3]), stat)
        + spec_delta(3, spec_effective_index(indices[4]), stat)
}

/// The resolved stats of build `indices`.
pub open spec fn spec_resolve_stats(indices: Seq<u8>) -> Stats {
    Stats {
        atk: spec_clamp_stat(spec_raw_stat(indices, 0)),
        def: spec_clamp_stat(spec_raw_stat(indices, 1)),
        sta: spec_clamp_stat(spec_raw_stat(indices, 2)),
        wgt: spec_clamp_stat(spec_raw_stat(indices, 3)),
        spd: spec_clamp_stat(spec_raw_stat(indices, 4)),
        mtr: spec_clamp_stat(spec_raw_stat(indices, 5)),
    }
}

/// Frame used by build `indices`: slot 0, with an out-of-range index
/// falling back to Frame 0.
pub open spec fn spec_build_silhouette(indices: Seq<u8>) -> Silhouette {
    spec_frame_silhouette(spec_effective_index(indices[0]))
}

/// Clamp an accumulator into a `0..=100` stat.
pub fn clamp_stat(v: i32) -> (r: u8)
    ensures
        r == spec_clamp_stat(v as int),
{
    if v < 0 {
        0
    } else if v > 100 {
        100
    } else {
        v as u8
    }
}

/// Frame choice `i`.
pub fn frame(i: usize) -> (f: Frame)
    requires
        i < FRAME_COUNT,
    ensures
        f.name == spec_frame_name(i as int),
        f.silhouette == spec_frame_silhouette(i as int),
{
    if i == 0 {
        Frame { name: "Cleaver Frame", silhouette: Silhouette::Cleaver }
    } else if i == 1 {
        Frame { name: "Bulwark Frame", silhouette: Silhouette::Bulwark }
    } else if i == 2 {
        Frame { name: "Everspin Frame", silhouette: Silhouette::Everspin }
    } else {
        Frame { name: "Riptide Frame", silhouette: Silhouette::Riptide }
    }
}

/// Part `idx` of stat-delta slot `slot` (0 Blade, 1 Disk, 2 Ridge, 3 Tip).
pub fn slot_part(slot: usize, idx: usize) -> (p: Part)
    requires
        slot < DELTA_SLOTS,
        idx < PARTS_PER_SLOT,
    ensures
        p.name == spec_part_name(slot as int, idx as int),
        p.d_atk == spec_delta(slot as int, idx as int, 0),
        p.d_def == spec_delta(slot as int, idx as int, 1),
        p.d_sta == spec_delta(slot as int, idx as int, 2),
        p.d_wgt == spec_delta(slot as int, idx as int, 3),
        p.d_spd == spec_delta(slot as int, idx as int, 4),
        p.d_mtr == spec_delta(slot as int, idx as int, 5),
{
    if slot == 0 {
        if idx == 0 {
            Part { name: "Blade Mk0", d_atk: 18, d_def: -3, d_sta: 0, d_wgt: 0, d_spd: 0, d_mtr: 0 }
        } else if idx == 1 {
            Part { name: "Blade Mk1", d_atk: 28, d_def: -14, d_sta: 0, d_wgt: 0, d_spd: 0, d_mtr: 0 }
        } else if idx == 2 {
            Part { name: "Blade Guard", d_atk: 6, d_def: -1, d_sta: 0, d_wgt: 0, d_spd: 0, d_mtr: 0 }
        } else {
            Part { name: "Blade Razor", d_atk: 34, d_def: -20, d_sta: 0, d_wgt: 0, d_spd: 0, d_mtr: 0 }
        }
    } else if slot == 1 {
        if idx == 0 {
            Part { name: "Disk Mk0", d_atk: 0, d_def: 0, d_sta: 0, d_wgt: 18, d_spd: -3, d_mtr: 0 }
        } else if idx == 1 {
            Part { name: "Disk Mk1", d_atk: 0, d_def: 0, d_sta: 0, d_wgt: 26, d_spd: -13, d_mtr: 0 }
        } else if idx == 2 {
            Part { name: "Disk Guard", d_atk: 0, d_def: 0, d_sta: 0, d_wgt: 6, d_spd: -1, d_mtr: 0 }
        } else {
            Part { name: "Disk Heavy", d_atk: 0, d_def: 0, d_sta: 0, d_wgt: 30, d_spd: -18, d_mtr: 0 }
        }
    } else if slot == 2 {
        if idx == 0 {
            Part { name: "Ridge Mk0", d_atk: 0, d_def: 0, d_sta: 18, d_wgt: 0, d_spd: 0, d_mtr: -3 }
        } else if idx == 1 {
            Part { name: "Ridge Mk1", d_atk: 0, d_def: 0, d_sta: 24, d_wgt: 0, d_spd: 0, d_mtr: -11 }
        } else if idx == 2 {
            Part { name: "Ridge Guard", d_atk: 0, d_def: 0, d_sta: 6, d_wgt: 0, d_spd: 0, d_mtr: -1 }
        } else {
            Part { name: "Ridge Endless", d_atk: 0, d_def: 0, d_sta: 32, d_wgt: 0, d_spd: 0, d_mtr: -19 }
        }
    } else {
        if idx == 0 {
            Part { name: "Tip Mk0", d_atk: 0, d_def: 0, d_sta: 0, d_wgt: -3, d_spd: 18, d_mtr: 0 }
        } else if idx == 1 {
            Part { name: "Tip Mk1", d_atk: 0, d_def: 0, d_sta: 0, d_wgt: -11, d_spd: 25, d_mtr: 0 }
        } else if idx == 2 {
            Part { name: "Tip Guard", d_atk: 0, d_def: 0, d_sta: 0, d_wgt: -1, d_spd: 6, d_mtr: 0 }
        } else {
            Part { name: "Tip Needle", d_atk: 0, d_def: 0, d_sta: 0, d_wgt: -17, d_spd: 30, d_mtr: 0 }
        }
    }
}

/// Roster index of a silhouette.
fn silhouette_index(s: Silhouette) -> (i: usize)
    ensures
        i == spec_silhouette_index(s),
        i < 7,
{
    match s {
        Silhouette::Cleaver => 0,
        Silhouette::Bulwark => 1,
        Silhouette::Everspin => 2,
        Silhouette::Keystone => 3,
        Silhouette::Riptide => 4,
        Silhouette::Gravewell => 5,
        Silhouette::Mirrorfang => 6,
    }
}

/// Resolve a 5-slot build. Total over every `[u8; 5]`: an out-of-range
/// Frame or part index falls back to index 0, and every stat is clamped to `0..=100`. Accent and spin
/// direction come from the roster preset sharing the Frame's silhouette,
/// and the special from that same silhouette.
pub fn resolve(indices: [u8; 5]) -> (b: CustomBuild)
    ensures
        b.stats == spec_resolve_stats(indices@),
        b.silhouette == spec_build_silhouette(indices@),
        b.special_id == spec_special_of(b.silhouette),
        b.accent == spec_preset_accent(spec_silhouette_index(b.silhouette)),
        b.spin_dir == spec_preset_spin_dir(spec_silhouette_index(b.silhouette)),
{
    let raw_frame = indices[0] as usize;
    let fr = frame(if raw_frame < FRAME_COUNT { raw_frame } else { 0 });

    let mut atk: i32 = BASE_STAT;
    let mut def: i32 = BASE_STAT;
    let mut sta: i32 = BASE_STAT;
    let mut wgt: i32 = BASE_STAT;
    let mut spd: i32 = BASE_STAT;
    let mut mtr: i32 = BASE_STAT;

    let mut slot: usize = 0;
    while slot < DELTA_SLOTS
        invariant
            0 <= slot <= DELTA_SLOTS,
            atk == BASE_STAT + spec_sum_delta(indices@, slot as int, 0),
            def == BASE_STAT + spec_sum_delta(indices@, slot as int, 1),
            sta == BASE_STAT + spec_sum_delta(indices@, slot as int, 2),
            wgt == BASE_STAT + spec_sum_delta(indices@, slot as int, 3),
            spd == BASE_STAT + spec_sum_delta(indices@, slot as int, 4),
            mtr == BASE_STAT + spec_sum_delta(indices@, slot as int, 5),
            -20 * slot <= atk - BASE_STAT <= 35 * slot,
            -20 * slot <= def - BASE_STAT <= 35 * slot,
            -20 * slot <= sta - BASE_STAT <= 35 * slot,
            -20 * slot <= wgt - BASE_STAT <= 35 * slot,
            -20 * slot <= spd - BASE_STAT <= 35 * slot,
            -20 * slot <= mtr - BASE_STAT <= 35 * slot,
        decreases DELTA_SLOTS - slot,
    {
        let raw = indices[slot + 1] as usize;
        let idx = if raw < PARTS_PER_SLOT { raw } else { 0 };
        let p = slot_part(slot, idx);
        atk = atk + p.d_atk as i32;
        def = def + p.d_def as i32;
        sta = sta + p.d_sta as i32;
        wgt = wgt + p.d_wgt as i32;
        spd = spd + p.d_spd as i32;
        mtr = mtr + p.d_mtr as i32;
        slot = slot + 1;
    }

    proof {
        reveal_with_fuel(spec_sum_delta, 5);
    }
    let stats = Stats {
        atk: clamp_stat(atk),
        def: clamp_stat(def),
        sta: clamp_stat(sta),
        wgt: clamp_stat(wgt),
        spd: clamp_stat(spd),
        mtr: clamp_stat(mtr),
    };
    let pr = preset(silhouette_index(fr.silhouette));
    CustomBuild {
        stats,
        silhouette: fr.silhouette,
        special_id: SpecialId::from_silhouette(fr.silhouette),
        accent: pr.accent,
        spin_dir: pr.spin_dir,
    }
}

/// Sum of the deltas of the first `n` stat-delta slots on stat `stat`.
pub open spec fn spec_sum_delta(indices: Seq<u8>, n: int, stat: int) -> int
    decreases n,
{
    if n <= 0 {
        0
    } else {
        spec_sum_delta(indices, n - 1, stat) + spec_delta(n - 1, spec_effective_index(indices[n]), stat)
    }
}

/// Every build, whatever bytes it holds, resolves to stats within
/// `0..=100`.
pub proof fn law_resolved_stats_stay_in_range(indices: Seq<u8>)
    requires
        indices.len() == 5,
    ensures
        spec_resolve_stats(indices).atk <= 100,
        spec_resolve_stats(indices).def <= 100,
        spec_resolve_stats(indices).sta <= 100,
        spec_resolve_stats(indices).wgt <= 100,
        spec_resolve_stats(indices).spd <= 100,
        spec_resolve_stats(indices).mtr <= 100,
{
}

/// The all-index-0 default build totals exactly 300.
pub proof fn law_default_build_totals_300()
    ensures
        spec_resolve_stats(DEFAULT_PARTS@).total() == 300,
{
    assert(DEFAULT_PARTS@ =~= seq![0u8, 0u8, 0u8, 0u8, 0u8]);
}

/// Every part raises exactly one stat and lowers exactly one other.
pub proof fn law_every_part_trades_one_stat_for_another(slot: int, idx: int)
    requires
        0 <= slot < 4,
        0 <= idx < 4,
    ensures
        spec_slot_stats(slot).0 != spec_slot_stats(slot).1,
        spec_delta(slot, idx, spec_slot_stats(slot).0) > 0,
        spec_delta(slot, idx, spec_slot_stats(slot).1) < 0,
        forall|stat: int|
            stat != spec_slot_stats(slot).0 && stat != spec_slot_stats(slot).1 ==> #[trigger] spec_delta(
                slot,
                idx,
                stat,
            ) == 0,
{
}

} // verus!
