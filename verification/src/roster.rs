//! The seven launch-ready presets: name, flavor line, stats, spin direction,
//! accent colour (`0x00RRGGBB`) and body silhouette.
use vstd::prelude::*;
use crate::physics::Stats;

verus! {

/// Body-shape identifier; order matches the roster table.
#[derive(Clone, Copy, Debug, PartialEq, Eq, Structural)]
pub enum Silhouette {
    Cleaver,
    Bulwark,
    Everspin,
    Keystone,
    Riptide,
    Gravewell,
    Mirrorfang,
}

/// One roster entry.
#[derive(Clone, Copy, Debug)]
pub struct Preset {
    pub name: &'static str,
    pub flavor: &'static str,
    pub stats: Stats,
    pub spin_dir: i8,
    pub accent: u32,
    pub silhouette: Silhouette,
}

/// Number of roster presets.
pub const PRESET_COUNT: usize = 7;

/// The silhouette of roster entry `i`, in table order.
pub open spec fn spec_preset_silhouette(i: int) -> Silhouette {
    if i == 0 {
        Silhouette::Cleaver
    } else if i == 1 {
        Silhouette::Bulwark
    } else if i == 2 {
        Silhouette::Everspin
    } else if i == 3 {
        Silhouette::Keystone
    } else if i == 4 {
        Silhouette::Riptide
    } else if i == 5 {
        Silhouette::Gravewell
    } else {
        Silhouette::Mirrorfang
    }
}

/// Spin direction of roster entry `i` (`+1` clockwise, `-1` counter).
pub open spec fn spec_preset_spin_dir(i: int) -> i8 {
    if i == 0 || i == 2 || i == 5 {
        1i8
    } else {
        -1i8
    }
}

/// Accent colour of roster entry `i`.
pub open spec fn spec_preset_accent(i: int) -> u32 {
    if i == 0 {
        0x00FF_2D55u32
    } else if i == 1 {
        0x002D_7DFFu32
    } else if i == 2 {
        0x0039_FF14u32
    } else if i == 3 {
        0x00FF_D400u32
    } else if i == 4 {
        0x0000_E5D0u32
    } else if i == 5 {
        0x00B0_26FFu32
    } else {
        0x00FF_7A00u32
    }
}

/// Stats of roster entry `i`.
pub open spec fn spec_preset_stats(i: int) -> Stats {
    if i == 0 {
        Stats { atk: 88, def: 30, sta: 34, wgt: 58, spd: 62, mtr: 30 }
    } else if i == 1 {
        Stats { atk: 28, def: 90, sta: 52, wgt: 78, spd: 22, mtr: 30 }
    } else if i == 2 {
        Stats { atk: 24, def: 44, sta: 92, wgt: 40, spd: 48, mtr: 52 }
    } else if i == 3 {
        Stats { atk: 52, def: 54, sta: 52, wgt: 50, spd: 50, mtr: 44 }
    } else if i == 4 {
        Stats { atk: 70, def: 26, sta: 40, wgt: 34, spd: 84, mtr: 46 }
    } else if i == 5 {
        Stats { atk: 46, def: 72, sta: 30, wgt: 90, spd: 20, mtr: 42 }
    } else {
        Stats { atk: 40, def: 66, sta: 58, wgt: 44, spd: 46, mtr: 48 }
    }
}

/// Name of roster entry `i`.
pub open spec fn spec_preset_name(i: int) -> &'static str {
    if i == 0 {
        "Cleaver"
    } else if i == 1 {
        "Bulwark"
    } else if i == 2 {
        "Everspin"
    } else if i == 3 {
        "Keystone"
    } else if i == 4 {
        "Riptide"
    } else if i == 5 {
        "Gravewell"
    } else {
        "Mirrorfang"
    }
}

/// Flavor line of roster entry `i`.
pub open spec fn spec_preset_flavor(i: int) -> &'static str {
    if i == 0 {
        "Six teeth, one purpose: open you up."
    } else if i == 1 {
        "Immovable isn't a boast. It's a description."
    } else if i == 2 {
        "It doesn't spin — it circles. Forever, if you let it."
    } else if i == 3 {
        "No weakness. No miracle, either."
    } else if i == 4 {
        "Never where you swung. Always where you're not."
    } else if i == 5 {
        "The bowl bends toward it. Everything else follows."
    } else {
        "Throw your best hit. Watch it come home."
    }
}

/// Roster entry `i`, in table order.
pub fn preset(i: usize) -> (p: Preset)
    requires
        i < PRESET_COUNT,
    ensures
        p.stats == spec_preset_stats(i as int),
        p.spin_dir == spec_preset_spin_dir(i as int),
        p.accent == spec_preset_accent(i as int),
        p.silhouette == spec_preset_silhouette(i as int),
        p.name == spec_preset_name(i as int),
        p.flavor == spec_preset_flavor(i as int),
{
    if i == 0 {
        Preset {
            name: "Cleaver",
            flavor: "Six teeth, one purpose: open you up.",
            stats: Stats { atk: 88, def: 30, sta: 34, wgt: 58, spd: 62, mtr: 30 },
            spin_dir: 1,
            accent: 0x00FF_2D55,
            silhouette: Silhouette::Cleaver,
        }
    } else if i == 1 {
        Preset {
            name: "Bulwark",
            flavor: "Immovable isn't a boast. It's a description.",
            stats: Stats { atk: 28, def: 90, sta: 52, wgt: 78, spd: 22, mtr: 30 },
            spin_dir: -1,
            accent: 0x002D_7DFF,
            silhouette: Silhouette::Bulwark,
        }
    } else if i == 2 {
        Preset {
            name: "Everspin",
            flavor: "It doesn't spin — it circles. Forever, if you let it.",
            stats: Stats { atk: 24, def: 44, sta: 92, wgt: 40, spd: 48, mtr: 52 },
            spin_dir: 1,
            accent: 0x0039_FF14,
            silhouette: Silhouette::Everspin,
        }
    } else if i == 3 {
        Preset {
            name: "Keystone",
            flavor: "No weakness. No miracle, either.",
            stats: Stats { atk: 52, def: 54, sta: 52, wgt: 50, spd: 50, mtr: 44 },
            spin_dir: -1,
            accent: 0x00FF_D400,
            silhouette: Silhouette::Keystone,
        }
    } else if i == 4 {
        Preset {
            name: "Riptide",
            flavor: "Never where you swung. Always where you're not.",
            stats: Stats { atk: 70, def: 26, sta: 40, wgt: 34, spd: 84, mtr: 46 },
            spin_dir: -1,
            accent: 0x0000_E5D0,
            silhouette: Silhouette::Riptide,
        }
    } else if i == 5 {
        Preset {
            name: "Gravewell",
            flavor: "The bowl bends toward it. Everything else follows.",
            stats: Stats { atk: 46, def: 72, sta: 30, wgt: 90, spd: 20, mtr: 42 },
            spin_dir: 1,
            accent: 0x00B0_26FF,
            silhouette: Silhouette::Gravewell,
        }
    } else {
        Preset {
            name: "Mirrorfang",
            flavor: "Throw your best hit. Watch it come home.",
            stats: Stats { atk: 40, def: 66, sta: 58, wgt: 44, spd: 46, mtr: 48 },
            spin_dir: -1,
            accent: 0x00FF_7A00,
            silhouette: Silhouette::Mirrorfang,
        }
    }
}

/// All seven presets, in table order.
pub fn presets() -> (v: Vec<Preset>)
    ensures
        v.len() == PRESET_COUNT,
        forall|i: int| #![trigger v@[i]] 0 <= i < PRESET_COUNT ==> {
            &&& v@[i].stats == spec_preset_stats(i)
            &&& v@[i].spin_dir == spec_preset_spin_dir(i)
            &&& v@[i].accent == spec_preset_accent(i)
            &&& v@[i].silhouette == spec_preset_silhouette(i)
            &&& v@[i].name == spec_preset_name(i)
            &&& v@[i].flavor == spec_preset_flavor(i)
        },
{
    let mut v: Vec<Preset> = Vec::new();
    let mut i: usize = 0;
    while i < PRESET_COUNT
        invariant
            0 <= i <= PRESET_COUNT,
            v.len() == i,
            forall|k: int| #![trigger v@[k]] 0 <= k < i ==> {
                &&& v@[k].stats == spec_preset_stats(k)
                &&& v@[k].spin_dir == spec_preset_spin_dir(k)
                &&& v@[k].accent == spec_preset_accent(k)
                &&& v@[k].silhouette == spec_preset_silhouette(k)
                &&& v@[k].name == spec_preset_name(k)
                &&& v@[k].flavor == spec_preset_flavor(k)
            },
        decreases PRESET_COUNT - i,
    {
        v.push(preset(i));
        i = i + 1;
    }
    v
}

/// The roster index whose silhouette is `s` (every silhouette has exactly
/// one roster entry).
pub open spec fn spec_silhouette_index(s: Silhouette) -> int {
    match s {
        Silhouette::Cleaver => 0,
        Silhouette::Bulwark => 1,
        Silhouette::Everspin => 2,
        Silhouette::Keystone => 3,
        Silhouette::Riptide => 4,
        Silhouette::Gravewell => 5,
        Silhouette::Mirrorfang => 6,
    }
}

/// Every preset's stat total lies within 300 +- 6, and distinct roster
/// entries have distinct silhouettes.
pub proof fn law_roster_is_balanced_and_distinct()
    ensures
        forall|i: int| 0 <= i < 7 ==> 294 <= #[trigger] spec_preset_stats(i).total() <= 306,
        forall|i: int, j: int|
            0 <= i < 7 && 0 <= j < 7 && i != j ==> #[trigger] spec_preset_silhouette(i)
                != #[trigger] spec_preset_silhouette(j),
        forall|i: int| 0 <= i < 7 ==> spec_silhouette_index(#[trigger] spec_preset_silhouette(i)) == i,
{
}

/// Every preset has a non-empty flavor line, and distinct roster entries
/// have distinct names.
pub proof fn law_roster_names_distinct_and_flavors_present()
    ensures
        forall|i: int| 0 <= i < 7 ==> (#[trigger] spec_preset_flavor(i))@.len() > 0,
        forall|i: int, j: int|
            0 <= i < 7 && 0 <= j < 7 && i != j ==> (#[trigger] spec_preset_name(i))@ != (#[trigger] spec_preset_name(
                j,
            ))@,
{
    reveal_strlit("Cleaver");
    reveal_strlit("Bulwark");
    reveal_strlit("Everspin");
    reveal_strlit("Keystone");
    reveal_strlit("Riptide");
    reveal_strlit("Gravewell");
    reveal_strlit("Mirrorfang");
    reveal_strlit("Six teeth, one purpose: open you up.");
    reveal_strlit("Immovable isn't a boast. It's a description.");
    reveal_strlit("It doesn't spin — it circles. Forever, if you let it.");
    reveal_strlit("No weakness. No miracle, either.");
    reveal_strlit("Never where you swung. Always where you're not.");
    reveal_strlit("The bowl bends toward it. Everything else follows.");
    reveal_strlit("Throw your best hit. Watch it come home.");
    assert forall|i: int, j: int|
        0 <= i < 7 && 0 <= j < 7 && i != j implies (#[trigger] spec_preset_name(i))@ != (#[trigger] spec_preset_name(
        j,
    ))@ by {
        assert(spec_preset_name(i)@[0] != spec_preset_name(j)@[0]);
    }
}

} // verus!
