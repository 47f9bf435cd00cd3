use lib::combat::{
    effective_stats, is_rooted_by_special, round_points, RoundEnd, SpecialId, SPECIAL_OVERCLOCK_STAT_BONUS,
};
use lib::domain::{Axis, DomainError, GarageSelection, Side, SpinDirection};
use lib::garage::{clamp_stat, frame, resolve, slot_part, DEFAULT_PARTS, FRAME_COUNT, PARTS_PER_SLOT};
use lib::hash::{fnv1a64, hash_u32s, Hasher64};
use lib::input::{FrameInput, InputState};
use lib::physics::{Outcome, Stats};
use lib::rng::{mix_seed, Rng};
use lib::roster::{presets, Silhouette};

#[test]
fn invalid_values_are_rejected_at_construction() {
    assert!(Axis::new(2).is_err());
    assert!(SpinDirection::new(0).is_err());
    assert!(GarageSelection::new([0, 1, 2, 3, 4]).is_err());
}

#[test]
fn domain_values_in_range_are_accepted_and_read_back() {
    assert_eq!(Axis::new(-1).unwrap().get(), -1);
    assert_eq!(SpinDirection::new(1).unwrap().get(), 1);
    assert_eq!(GarageSelection::new([3, 2, 1, 0, 3]).unwrap().parts(), [3, 2, 1, 0, 3]);
    assert_eq!(Axis::new(-2), Err(DomainError::InvalidAxis(-2)));
    assert_eq!(
        GarageSelection::new([0, 1, 9, 7, 4]),
        Err(DomainError::InvalidPart { slot: 2, value: 9 })
    );
    assert_eq!(Side::Player.other(), Side::Opponent);
    assert_eq!(Side::Opponent.index(), 1);
}

#[test]
fn fnv1a64_known_vectors() {
    assert_eq!(fnv1a64(b""), 0xcbf2_9ce4_8422_2325);
    assert_eq!(fnv1a64(b"a"), 0xaf63_dc4c_8601_ec8c);
}

#[test]
fn hash_u32s_matches_fnv1a64_of_le_bytes() {
    let words = [1u32, 2u32, 3u32];
    let mut bytes = Vec::new();
    for w in words {
        bytes.extend_from_slice(&w.to_le_bytes());
    }
    assert_eq!(hash_u32s(&words), fnv1a64(&bytes));
}

#[test]
fn streaming_writes_hash_like_one_byte_string() {
    let mut h = Hasher64::default();
    h.write_u8(7);
    h.write_bool(true);
    h.write_u16(0x0102);
    h.write_u32(0xAABB_CCDD);
    h.write_u64(1);
    h.write_bytes(b"xy");
    let mut bytes = vec![7u8, 1, 0x02, 0x01, 0xDD, 0xCC, 0xBB, 0xAA];
    bytes.extend_from_slice(&1u64.to_le_bytes());
    bytes.extend_from_slice(b"xy");
    assert_eq!(h.finish(), fnv1a64(&bytes));
}

#[test]
fn pack_unpack_roundtrip_over_dirs_and_button_masks() {
    let dirs: [i8; 3] = [-1, 0, 1];
    let button_masks: [(bool, bool, bool, bool, bool, bool); 5] = [
        (false, false, false, false, false, false),
        (true, false, false, false, false, false),
        (false, true, true, false, false, false),
        (true, true, true, true, true, true),
        (false, false, false, true, false, true),
    ];
    for &dx in &dirs {
        for &dy in &dirs {
            for &(dash, special, guard, hop, carve, anchor) in &button_masks {
                let original = InputState { dir_x: dx, dir_y: dy, dash, special, guard, hop, carve, anchor };
                let roundtripped = InputState::unpack(original.pack());
                assert_eq!(roundtripped, original);
            }
        }
    }
}

#[test]
fn unused_high_bits_are_ignored_on_unpack() {
    let base = InputState { dir_x: 1, dir_y: -1, dash: true, ..Default::default() };
    let packed = base.pack();
    let with_garbage = packed | 0xFC00;
    assert_eq!(InputState::unpack(with_garbage), base);
}

#[test]
fn pack_layout_puts_directions_low_and_buttons_above() {
    let s = InputState { dir_x: 1, dir_y: -1, dash: true, anchor: true, ..Default::default() };
    // dir_x +1 -> 2, dir_y -1 -> 0 << 2, dash bit 4, anchor bit 9.
    assert_eq!(s.pack(), 2 | (1 << 4) | (1 << 9));
    assert_eq!(InputState::default().pack(), 1 | (1 << 2));
}

#[test]
fn one_shot_actions_only_reach_the_first_substep() {
    let frame = FrameInput {
        held: InputState { guard: true, carve: true, ..InputState::default() },
        pressed: InputState { dash: true, special: true, hop: true, ..InputState::default() },
        focused: true,
        ..FrameInput::default()
    };
    let first = frame.for_substep(true);
    let second = frame.for_substep(false);
    assert!(first.dash && first.special && first.hop);
    assert!(!second.dash && !second.special && !second.hop);
    assert!(second.guard && second.carve);
}

#[test]
fn from_held_latches_nothing() {
    let held = InputState { dir_x: -1, hop: true, ..Default::default() };
    let f = FrameInput::from_held(held, true);
    assert_eq!(f.held, held);
    assert_eq!(f.pressed, InputState::default());
    assert!(f.escape_held && !f.escape_pressed && f.focused);
}

#[test]
fn rng_seed_1_first_four_values_are_frozen() {
    let mut rng = Rng::new(1);
    let v: [u64; 4] = [rng.next_u64(), rng.next_u64(), rng.next_u64(), rng.next_u64()];
    assert_eq!(v, [0x47e4ce4b896cdd1d, 0xabcfa6a8e079651d, 0xb9d10d8feb731f57, 0x4db418a0bb1b019d]);
}

#[test]
fn zero_seed_is_remapped_to_nonzero() {
    let mut rng = Rng::new(0);
    assert_ne!(rng.next_u64(), 0);
}

#[test]
fn mix_seed_differs_across_rounds() {
    let a = mix_seed(123, 0);
    let b = mix_seed(123, 1);
    assert_ne!(a, b);
}

#[test]
fn range_i32_stays_in_bounds() {
    let mut rng = Rng::new(7);
    for _ in 0..1_000 {
        let v = rng.range_i32(-5, 5);
        assert!((-5..5).contains(&v), "v={v}");
    }
    assert_eq!(rng.range_i32(5, 5), 5);
    assert_eq!(rng.range_i32(5, 2), 5);
}

#[test]
fn next_u32_is_the_high_half_of_the_next_draw() {
    let mut a = Rng::new(1);
    let mut b = Rng::new(1);
    assert_eq!(a.next_u32(), (b.next_u64() >> 32) as u32);
    assert_eq!(a.next_u32(), 0xabcfa6a8);
}

#[test]
fn every_preset_stat_total_is_within_300_plus_minus_6() {
    for p in presets() {
        let s = p.stats;
        let sum = s.atk as i32 + s.def as i32 + s.sta as i32 + s.wgt as i32 + s.spd as i32 + s.mtr as i32;
        assert!((sum - 300).abs() <= 6, "{}: stat sum {sum} outside 300+-6", p.name);
    }
}

fn find(name: &str) -> lib::roster::Preset {
    presets().into_iter().find(|p| p.name == name).unwrap_or_else(|| panic!("no preset named {name}"))
}

#[test]
fn accents_match_game_design_doc_hex_values() {
    let expected: [(&str, u32); 7] = [
        ("Cleaver", 0x00FF_2D55),
        ("Bulwark", 0x002D_7DFF),
        ("Everspin", 0x0039_FF14),
        ("Keystone", 0x00FF_D400),
        ("Riptide", 0x0000_E5D0),
        ("Gravewell", 0x00B0_26FF),
        ("Mirrorfang", 0x00FF_7A00),
    ];
    for (name, accent) in expected {
        assert_eq!(find(name).accent, accent, "{name} accent mismatch");
    }
}

#[test]
fn spin_dirs_match_game_design_doc() {
    let expected: [(&str, i8); 7] = [
        ("Cleaver", 1),
        ("Bulwark", -1),
        ("Everspin", 1),
        ("Keystone", -1),
        ("Riptide", -1),
        ("Gravewell", 1),
        ("Mirrorfang", -1),
    ];
    for (name, dir) in expected {
        assert_eq!(find(name).spin_dir, dir, "{name} spin_dir mismatch");
    }
}

#[test]
fn every_preset_has_a_nonempty_flavor_line() {
    for p in presets() {
        assert!(!p.flavor.is_empty(), "{} missing a flavor line", p.name);
    }
}

#[test]
fn every_preset_has_a_distinct_silhouette() {
    let mut seen: Vec<Silhouette> = Vec::new();
    for p in presets() {
        assert!(!seen.contains(&p.silhouette), "duplicate silhouette for {}", p.name);
        seen.push(p.silhouette);
    }
}

#[test]
fn every_preset_name_is_distinct() {
    let mut seen: Vec<&str> = Vec::new();
    for p in presets() {
        assert!(!seen.contains(&p.name), "duplicate name {}", p.name);
        seen.push(p.name);
    }
}

#[test]
fn special_id_from_silhouette_matches_roster_table_order() {
    assert_eq!(SpecialId::from_silhouette(Silhouette::Cleaver), SpecialId::GuillotineRush);
    assert_eq!(SpecialId::from_silhouette(Silhouette::Bulwark), SpecialId::AegisLock);
    assert_eq!(SpecialId::from_silhouette(Silhouette::Everspin), SpecialId::SecondWind);
    assert_eq!(SpecialId::from_silhouette(Silhouette::Keystone), SpecialId::Overclock);
    assert_eq!(SpecialId::from_silhouette(Silhouette::Riptide), SpecialId::Slipstream);
    assert_eq!(SpecialId::from_silhouette(Silhouette::Gravewell), SpecialId::Sinkhole);
    assert_eq!(SpecialId::from_silhouette(Silhouette::Mirrorfang), SpecialId::Riposte);
}

#[test]
fn round_end_points_match_spec_6_5() {
    assert_eq!(RoundEnd::CrashOut.points(), 3);
    assert_eq!(RoundEnd::Over.points(), 2);
    assert_eq!(RoundEnd::Survivor.points(), 1);
    assert_eq!(RoundEnd::Draw.points(), 0);
}

#[test]
fn special_durations_match_the_table() {
    assert_eq!(SpecialId::GuillotineRush.duration_steps(), 48);
    assert_eq!(SpecialId::AegisLock.duration_steps(), 150);
    assert_eq!(SpecialId::Riposte.duration_steps(), 90);
}

#[test]
fn round_points_scores_crash_out_only_within_the_window() {
    let ring_out_of_ai = Some(Outcome::RingOut { loser: 1 });
    assert_eq!(round_points(ring_out_of_ai, [0, 0]), Some((0, RoundEnd::Over)));
    assert_eq!(round_points(ring_out_of_ai, [12, 0]), Some((0, RoundEnd::CrashOut)));
    assert_eq!(round_points(ring_out_of_ai, [0, 12]), Some((0, RoundEnd::Over)));
    assert_eq!(
        round_points(Some(Outcome::StaminaOut { loser: 0 }), [0, 0]),
        Some((1, RoundEnd::Survivor))
    );
    assert_eq!(round_points(Some(Outcome::Simultaneous), [5, 5]), None);
    assert_eq!(round_points(None, [5, 5]), None);
}

fn stat_sum(s: Stats) -> i32 {
    s.atk as i32 + s.def as i32 + s.sta as i32 + s.wgt as i32 + s.spd as i32 + s.mtr as i32
}

#[test]
fn resolve_is_total_over_every_index_combo_and_never_panics() {
    for i0 in 0..4u8 {
        for i1 in 0..4u8 {
            for i2 in 0..4u8 {
                for i3 in 0..4u8 {
                    for i4 in 0..4u8 {
                        let build = resolve([i0, i1, i2, i3, i4]);
                        let s = build.stats;
                        assert!(s.atk <= 100 && s.def <= 100 && s.sta <= 100);
                        assert!(s.wgt <= 100 && s.spd <= 100 && s.mtr <= 100);
                    }
                }
            }
        }
    }
}

#[test]
fn resolve_never_panics_on_out_of_range_indices() {
    for &v in &[4u8, 5, 6, 100, 200, 255] {
        let build = resolve([v, v, v, v, v]);
        let s = build.stats;
        assert!(s.atk <= 100 && s.def <= 100 && s.sta <= 100);
        assert!(s.wgt <= 100 && s.spd <= 100 && s.mtr <= 100);
    }
    for v in 0..=255u8 {
        let build = resolve([v, 0, 0, 0, 0]);
        assert!(build.stats.atk <= 100);
    }
}

#[test]
fn default_build_total_is_within_the_documented_band() {
    let build = resolve(DEFAULT_PARTS);
    let sum = stat_sum(build.stats);
    assert_eq!(sum, 300, "default build should total exactly 300");
    assert!((sum - 300).abs() <= 6, "default build must be within 300+-6");
}

#[test]
fn known_part_combo_yields_hand_computed_stats() {
    let build = resolve([1, 1, 2, 3, 0]);
    let expected = Stats {
        atk: clamp_stat(40 + 28),
        def: clamp_stat(40 - 14),
        sta: clamp_stat(40 + 32),
        wgt: clamp_stat(40 + 6 - 3),
        spd: clamp_stat(40 - 1 + 18),
        mtr: clamp_stat(40 - 19),
    };
    assert_eq!(build.stats, expected);
    assert_eq!(build.silhouette, Silhouette::Bulwark);
    assert_eq!(build.special_id, SpecialId::AegisLock);
    assert_eq!(build.spin_dir, -1);
    assert_eq!(build.accent, 0x002D_7DFF);
}

#[test]
fn clamping_actually_caps_at_0_and_100() {
    assert_eq!(clamp_stat(-1), 0);
    assert_eq!(clamp_stat(0), 0);
    assert_eq!(clamp_stat(100), 100);
    assert_eq!(clamp_stat(101), 100);
    assert_eq!(clamp_stat(-500), 0);
    assert_eq!(clamp_stat(500), 100);
    let high_wgt = resolve([0, 0, 3, 0, 0]);
    assert!(high_wgt.stats.wgt <= 100);
    assert_eq!(high_wgt.stats.wgt, clamp_stat(40 + 30 - 3));
    assert_eq!(high_wgt.stats.spd, clamp_stat(40 - 18 + 18));
}

#[test]
fn frames_map_to_distinct_silhouettes_with_matching_presets() {
    let mut seen = Vec::new();
    for i in 0..FRAME_COUNT {
        let f = frame(i);
        assert!(!seen.contains(&f.silhouette), "duplicate frame silhouette");
        seen.push(f.silhouette);
        assert!(presets().iter().any(|p| p.silhouette == f.silhouette), "frame silhouette must exist in the roster");
    }
}

#[test]
fn every_part_has_exactly_one_positive_and_one_negative_delta() {
    for slot in 0..4 {
        for idx in 0..PARTS_PER_SLOT {
            let p = slot_part(slot, idx);
            let deltas = [p.d_atk, p.d_def, p.d_sta, p.d_wgt, p.d_spd, p.d_mtr];
            let pos = deltas.iter().filter(|&&d| d > 0).count();
            let neg = deltas.iter().filter(|&&d| d < 0).count();
            let zero = deltas.iter().filter(|&&d| d == 0).count();
            assert_eq!(pos, 1, "{}: expected exactly one positive delta", p.name);
            assert_eq!(neg, 1, "{}: expected exactly one negative delta", p.name);
            assert_eq!(zero, 4, "{}: expected exactly four zero deltas", p.name);
        }
    }
}

#[test]
fn dash_cooldown_follows_the_spd_formula() {
    let s = |spd: u8| Stats { spd, ..Stats::default() };
    assert_eq!(s(0).dash_cooldown_steps(), 72);
    assert_eq!(s(50).dash_cooldown_steps(), 52);
    assert_eq!(s(100).dash_cooldown_steps(), 32);
    assert_eq!(s(255).dash_cooldown_steps(), 1);
}

#[test]
fn overclock_effective_stats_add_the_flat_bonus_to_all_six_stats() {
    let stats = Stats { atk: 40, def: 40, sta: 40, wgt: 40, spd: 40, mtr: 40 };
    let eff = effective_stats(stats, 10, SpecialId::Overclock);
    let bonus = SPECIAL_OVERCLOCK_STAT_BONUS;
    assert_eq!(eff.atk, 40 + bonus);
    assert_eq!(eff.def, 40 + bonus);
    assert_eq!(eff.sta, 40 + bonus);
    assert_eq!(eff.wgt, 40 + bonus);
    assert_eq!(eff.spd, 40 + bonus);
    assert_eq!(eff.mtr, 40 + bonus);
    assert_eq!(effective_stats(stats, 0, SpecialId::Overclock), stats);
    assert_eq!(effective_stats(Stats { atk: 250, ..stats }, 1, SpecialId::Overclock).atk, 255);
    assert_eq!(effective_stats(stats, 1, SpecialId::AegisLock).def, 100);
    assert!(is_rooted_by_special(1, SpecialId::AegisLock));
    assert!(!is_rooted_by_special(0, SpecialId::AegisLock));
    assert!(!is_rooted_by_special(5, SpecialId::Riposte));
}

#[test]
fn rng_state_is_the_seed_and_reseeding_reproduces_the_stream() {
    assert_eq!(Rng::new(5).state(), 5);
    assert_eq!(Rng::new(0).state(), 0x9E37_79B9_7F4A_7C15);
    let mut a = Rng::new(12345);
    a.next_u64();
    let mut b = Rng::new(a.state());
    assert_eq!(a.next_u64(), b.next_u64());
}

#[test]
fn garage_parts_and_frames_carry_their_names() {
    assert_eq!(frame(0).name, "Cleaver Frame");
    assert_eq!(frame(3).name, "Riptide Frame");
    assert_eq!(slot_part(0, 3).name, "Blade Razor");
    assert_eq!(slot_part(1, 3).name, "Disk Heavy");
    assert_eq!(slot_part(2, 3).name, "Ridge Endless");
    assert_eq!(slot_part(3, 3).name, "Tip Needle");
    assert_eq!(slot_part(3, 2).name, "Tip Guard");
}

#[test]
fn out_of_range_frame_index_falls_back_to_frame_0() {
    for &v in &[4u8, 5, 200, 255] {
        let build = resolve([v, 0, 0, 0, 0]);
        assert_eq!(build.silhouette, Silhouette::Cleaver);
        assert_eq!(build.special_id, SpecialId::GuillotineRush);
        assert_eq!(build.stats, resolve(DEFAULT_PARTS).stats);
    }
}

#[test]
fn step_gate_skips_decided_rounds_and_counts_hit_stop_down() {
    assert_eq!(lib::physics::step_gate(true, 3), (lib::physics::StepGate::Decided, 3));
    assert_eq!(lib::physics::step_gate(false, 3), (lib::physics::StepGate::HitStop, 2));
    assert_eq!(lib::physics::step_gate(false, 1), (lib::physics::StepGate::HitStop, 0));
    assert_eq!(lib::physics::step_gate(false, 0), (lib::physics::StepGate::Run, 0));
}
