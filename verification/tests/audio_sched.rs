use lib::audio::engine::{AudioBatch, AudioEngine, MAX_CUES_PER_BATCH};
use lib::audio::env::{EnvStage, EnvState, EnvTiming};
use lib::audio::mixer::{choose_pool_voice, VoiceSlot, NUM_VOICES, SFX_POOL_SIZE};
use lib::audio::osc::{lfsr_step, NOISE_SEED};
use lib::audio::tracker::{battle, menu, SongId, Tracker, HAT, REST, ROWS_PER_BAR, ROW_NUMERATOR, SNARE};
use lib::audio::{ms_to_samples, SAMPLE_RATE};

#[test]
fn lfsr_period_is_32767_and_never_zero() {
    let mut state = NOISE_SEED;
    let start = state;
    for step in 1..=32767u32 {
        state = lfsr_step(state);
        assert_ne!(state, 0, "LFSR hit the all-zero state at step {step}");
        if state == start {
            assert_eq!(step, 32767, "LFSR period was {step}, expected 32767");
            return;
        }
    }
    panic!("LFSR did not return to its start state within 32767 steps");
}

#[test]
fn kick_flags_match_documented_rows() {
    for bar in 0..menu::BARS {
        let base = bar * ROWS_PER_BAR;
        assert!(menu::kick_on_row(base), "menu bar {bar} row 0 should kick");
        for r in 1..ROWS_PER_BAR {
            assert!(!menu::kick_on_row(base + r), "menu bar {bar} row {r} should not kick");
        }
    }
    assert!(battle::kick_on_row(0));
    assert!(!battle::kick_on_row(4));
    for bar in 3..battle::BARS {
        let base = bar * ROWS_PER_BAR;
        for &beat_row in &[0u32, 4, 8, 12] {
            assert!(battle::kick_on_row(base + beat_row), "battle bar {bar} row {beat_row} should kick");
        }
    }
}

fn assert_loop_is_exact(song: SongId, bpm: u32, total_rows: u32) {
    let numerator: u64 = 60 * SAMPLE_RATE as u64;
    let denom: u64 = bpm as u64 * 4;
    let expected = numerator * total_rows as u64 / denom;
    let mut tracker = Tracker::new(song);
    tracker.advance(expected as u32 - 1);
    assert_eq!(tracker.row_index(), total_rows - 1, "should still be on the last row with 1 sample to go");
    tracker.advance(1);
    assert_eq!(tracker.row_index(), total_rows - 1, "last row's final sample");
    tracker.advance(1);
    assert_eq!(tracker.row_index(), 0, "must wrap at exactly `expected` samples, not early or late");
}

#[test]
fn menu_loop_total_samples_matches_exact_formula() {
    assert_loop_is_exact(SongId::Menu, menu::BPM, menu::TOTAL_ROWS);
}

#[test]
fn battle_loop_total_samples_matches_exact_formula() {
    assert_loop_is_exact(SongId::Battle, battle::BPM, battle::TOTAL_ROWS);
}

#[test]
fn advance_is_chunking_independent() {
    let numerator: u64 = 60 * SAMPLE_RATE as u64;
    let denom: u64 = battle::BPM as u64 * 4;
    let expected = numerator * battle::TOTAL_ROWS as u64 / denom;
    let mut one_shot = Tracker::new(SongId::Battle);
    let all = one_shot.advance(expected as u32 * 2);
    let mut piecemeal = Tracker::new(SongId::Battle);
    let mut remaining = expected as u32 * 2;
    let mut pieces = Vec::new();
    let mut played: u32 = 0;
    while remaining > 0 {
        let step = remaining.min(37);
        for mut f in piecemeal.advance(step) {
            f.offset += played;
            pieces.push(f);
        }
        played += step;
        remaining -= step;
    }
    assert_eq!(one_shot.row_index(), piecemeal.row_index());
    assert_eq!(all, pieces, "the same rows fire at the same samples");
}

#[test]
fn set_intensity_takes_effect_only_at_next_bar_boundary() {
    let mut tracker = Tracker::new(SongId::Battle);
    let target_row = 4 * ROWS_PER_BAR + 2;
    while tracker.row_index() != target_row {
        let before = tracker.row_index();
        while tracker.row_index() == before {
            tracker.advance(1);
        }
    }
    assert!(!tracker.intensity_on());
    tracker.set_intensity(true);
    assert!(!tracker.intensity_on());
    loop {
        let before = tracker.row_index();
        while tracker.row_index() == before {
            tracker.advance(1);
        }
        if tracker.row_index() % ROWS_PER_BAR == 0 {
            break;
        }
        assert!(!tracker.intensity_on(), "intensity flipped before the bar boundary");
    }
    assert!(tracker.intensity_on(), "intensity should be on right at the bar boundary");
}

#[test]
fn rows_fire_at_the_exact_cumulative_sample() {
    let mut tracker = Tracker::new(SongId::Menu);
    let fires = tracker.advance(100_000);
    let denom = menu::BPM as u64 * 4;
    for (k, f) in fires.iter().enumerate() {
        assert_eq!(f.offset as u64, ROW_NUMERATOR * k as u64 / denom, "row {k}");
        assert_eq!(f.row, k as u32 % menu::TOTAL_ROWS);
    }
    // 100_000 samples begin ceil(100_000 * 448 / 2_646_000) rows.
    assert_eq!(fires.len(), 17);
}

#[test]
fn menu_rows_carry_the_documented_notes() {
    let first = menu::fire_row(0);
    assert_eq!(first.lead, 0);
    assert_eq!(first.pulse2, -12);
    assert_eq!(first.bass, -24);
    assert!(first.kick);
    assert_eq!(first.perc, REST);
    assert_eq!(menu::fire_row(8).perc, SNARE);
    assert_eq!(menu::fire_row(2).perc, HAT);
    assert_eq!(menu::fire_row(7 * 16 + 9).lead, REST, "the breath bar rests");
}

#[test]
fn battle_counter_melody_needs_intensity_and_the_groove() {
    let groove_row = 4 * 16 + 2;
    assert_eq!(battle::fire_row(groove_row, false).pulse2, REST);
    assert_eq!(battle::fire_row(groove_row, true).pulse2, 7);
    assert_eq!(battle::fire_row(2, true).pulse2, REST, "the riser stays clean");
    assert_eq!(battle::fire_row(4 * 16 + 1, true).perc, HAT, "intensity doubles the hats");
    assert_eq!(battle::fire_row(4 * 16 + 1, false).perc, REST);
}

#[test]
fn engine_reports_cues_at_absolute_samples_and_caps_them() {
    let mut engine = AudioEngine::new(SongId::Menu);
    let (batch, fires) = engine.render(10_000);
    assert_eq!(batch.start_sample, 0);
    assert_eq!(batch.end_sample, 10_000);
    assert_eq!(engine.sample_cursor(), 10_000);
    let cues = batch.cues();
    assert_eq!(cues.len(), fires.len());
    assert_eq!(cues[0].sample, 0);
    assert!(cues[0].kick);
    let (batch2, _) = engine.render(10_000);
    assert!(batch2.cues().iter().all(|c| c.sample >= 10_000 && c.sample < 20_000));

    let mut long = AudioEngine::new(SongId::Battle);
    let (big, fires) = long.render(200_000);
    assert!(fires.len() > MAX_CUES_PER_BATCH);
    assert_eq!(big.cues().len(), MAX_CUES_PER_BATCH);
}

#[test]
fn changing_song_restarts_only_a_different_song() {
    let mut engine = AudioEngine::new(SongId::Menu);
    engine.render(30_000);
    engine.set_song(SongId::Menu);
    let (_, fires) = engine.render(1);
    assert!(fires.is_empty(), "the same song carries on mid-row");
    engine.set_song(SongId::Battle);
    let (_, fires) = engine.render(1);
    assert_eq!(fires.len(), 1);
    assert_eq!(fires[0].row, 0);
}

#[test]
fn empty_batch_has_no_cues() {
    let b = AudioBatch::from_fires(5, 5, &Vec::new());
    assert!(b.cues().is_empty());
}

fn slot(active: bool, priority: u8, age: u64) -> VoiceSlot {
    VoiceSlot { active, priority, age }
}

#[test]
fn pool_allocation_takes_the_first_idle_voice() {
    let mut slots = [slot(true, 9, 0); NUM_VOICES];
    slots[3] = slot(false, 0, 0);
    slots[7] = slot(false, 0, 0);
    assert_eq!(choose_pool_voice(&slots), 3);
}

#[test]
fn pool_steal_takes_lowest_priority_and_never_a_reserved_voice() {
    let mut slots = [slot(true, 255, 0); NUM_VOICES];
    for i in 0..SFX_POOL_SIZE {
        slots[i] = slot(true, i as u8, 0);
    }
    slots[12] = slot(true, 0, 0);
    assert_eq!(choose_pool_voice(&slots), 0);
}

#[test]
fn pool_steal_tie_breaks_to_oldest_then_lowest_index() {
    let mut slots = [slot(true, 50, 0); NUM_VOICES];
    for i in 0..SFX_POOL_SIZE {
        slots[i] = slot(true, 50, 10 + i as u64);
    }
    assert_eq!(choose_pool_voice(&slots), 0);
    slots[0].age = 100;
    assert_eq!(choose_pool_voice(&slots), 1);
    slots[5].age = 11;
    assert_eq!(choose_pool_voice(&slots), 1, "equal age keeps the lower index");
}

#[test]
fn envelope_stages_run_for_their_lengths() {
    let mut env = EnvStage::new();
    assert!(!env.is_active());
    env.trigger(EnvTiming { attack: 2, decay: 3, release: 2, holds: true });
    assert_eq!(env.state, EnvState::Attack);
    env.tick();
    assert_eq!(env.state, EnvState::Attack);
    env.tick();
    assert_eq!(env.state, EnvState::Decay);
    for _ in 0..3 {
        env.tick();
    }
    assert_eq!(env.state, EnvState::Sustain);
    env.tick();
    assert_eq!(env.state, EnvState::Sustain);
    env.note_off();
    assert_eq!(env.state, EnvState::Release);
    env.tick();
    env.tick();
    assert_eq!(env.state, EnvState::Done);
    assert!(!env.is_active());
}

#[test]
fn zero_length_segments_skip_immediately() {
    let mut env = EnvStage::new();
    env.trigger(EnvTiming { attack: 0, decay: 0, release: 0, holds: true });
    assert_eq!(env.state, EnvState::Sustain);
    env.note_off();
    assert_eq!(env.state, EnvState::Done);
    env.trigger(EnvTiming { attack: 0, decay: 0, release: 0, holds: false });
    assert_eq!(env.state, EnvState::Done, "a zero-sustain one-shot ends by itself");
}

#[test]
fn ms_to_samples_truncates() {
    assert_eq!(ms_to_samples(1000), 44_100);
    assert_eq!(ms_to_samples(1), 44);
    assert_eq!(ms_to_samples(90), 3969);
}

#[test]
fn row_index_is_the_last_row_started_before_the_samples_played() {
    for &n in &[1u32, 2, 5905, 5906, 5907, 100_000, 1_000_000] {
        let mut t = Tracker::new(SongId::Menu);
        let mut left = n;
        while left > 0 {
            let step = left.min(333);
            t.advance(step);
            left -= step;
        }
        let denom = menu::BPM as u64 * 4;
        let mut j: u64 = 0;
        while ROW_NUMERATOR * (j + 1) / denom < n as u64 {
            j += 1;
        }
        assert_eq!(t.row_index() as u64, j % menu::TOTAL_ROWS as u64, "after {n} samples");
    }
}
