use lib::input::InputState;
use lib::minigame::{LaunchStages, Stage, StageAction};

fn input(dx: i8, dy: i8, dash: bool, special: bool) -> InputState {
    InputState { dir_x: dx, dir_y: dy, dash, special, ..Default::default() }
}

#[test]
fn full_state_machine_locks_in_order_and_respects_spin_toggle() {
    let mut s = LaunchStages::new(1);
    for _ in 0..5 {
        assert_eq!(s.step(input(-1, 0, false, false)), StageAction::Aim);
    }
    assert_eq!(s.step(input(0, 0, true, false)), StageAction::Aim);
    assert_eq!(s.stage, Stage::SpinDir);
    s.step(input(0, 0, false, false));
    s.step(input(0, 0, false, true));
    assert_eq!(s.spin_dir, -1);
    s.step(input(0, 0, false, false));
    assert_eq!(s.step(input(0, 0, true, false)), StageAction::StartPower);
    assert_eq!(s.stage, Stage::Power);
    assert_eq!(s.step(input(0, 0, false, false)), StageAction::AdvancePower);
    assert_eq!(s.step(input(0, 0, true, false)), StageAction::Lock);
    assert_eq!(s.stage, Stage::Locked);
    assert_eq!(s.spin_dir, -1);
}

#[test]
fn held_dash_only_fires_one_edge() {
    let mut state = LaunchStages::new(1);
    state.step(input(0, 0, true, false));
    state.step(input(0, 0, true, false));
    assert_eq!(state.stage, Stage::SpinDir, "held dash must not re-fire");
}

#[test]
fn locked_stage_step_is_a_harmless_no_op() {
    let mut state = LaunchStages::new(1);
    state.step(input(0, 0, true, false));
    state.step(input(0, 0, false, false));
    state.step(input(0, 0, true, false));
    state.step(input(0, 0, false, false));
    state.step(input(0, 0, true, false));
    assert_eq!(state.stage, Stage::Locked);
    let before = state;
    assert_eq!(state.step(input(1, 1, true, true)), StageAction::Idle);
    assert_eq!(state, before, "Locked stage must ignore all further input");
}
