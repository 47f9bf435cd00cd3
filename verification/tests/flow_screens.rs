use lib::combat::RoundEnd;
use lib::flow::{
    advance_ok_for, adjust_volume, cycle_difficulty, cycle_shake, cycle_window_scale, intro_banner, outcome_banner, FlowActions,
    FlowState, MatchPhase, Screen, ShakeLevel, SimReport, SimWork, WindowScale, INTRO_NUMERAL_FRAMES,
    INTRO_READY_FRAMES, INTRO_TOTAL_FRAMES, MATCH_WIN_POINTS,
};
use lib::input::InputState;
use lib::minigame::Difficulty;
use lib::physics::Outcome;
use lib::session::GameSession;

#[test]
fn intro_banner_segments_cover_the_whole_countdown() {
    assert_eq!(intro_banner(0), "READY?");
    assert_eq!(intro_banner(INTRO_READY_FRAMES - 1), "READY?");
    assert_eq!(intro_banner(INTRO_READY_FRAMES), "3");
    assert_eq!(intro_banner(INTRO_READY_FRAMES + INTRO_NUMERAL_FRAMES), "2");
    assert_eq!(intro_banner(INTRO_READY_FRAMES + 2 * INTRO_NUMERAL_FRAMES), "1");
    assert_eq!(intro_banner(INTRO_READY_FRAMES + 3 * INTRO_NUMERAL_FRAMES), "GO!");
    assert_eq!(intro_banner(INTRO_TOTAL_FRAMES - 1), "GO!");
    assert_eq!(INTRO_TOTAL_FRAMES, 120);
}

#[test]
fn settings_cycles_wrap_in_both_directions() {
    assert_eq!(cycle_shake(ShakeLevel::Off, -1), ShakeLevel::High);
    assert_eq!(cycle_shake(ShakeLevel::High, 1), ShakeLevel::Off);
    assert_eq!(cycle_difficulty(Difficulty::Ace, 1), Difficulty::Easy);
    assert_eq!(cycle_window_scale(WindowScale::X1, -1), WindowScale::Fullscreen);
    assert_eq!(adjust_volume(10, 1), 10);
    assert_eq!(adjust_volume(0, -1), 0);
}

#[test]
fn outcome_banners_follow_the_round_end() {
    let ring = Outcome::RingOut { loser: 1 };
    assert_eq!(outcome_banner(ring, Some(RoundEnd::CrashOut)), "CRASH-OUT!!");
    assert_eq!(outcome_banner(ring, Some(RoundEnd::Over)), "RING OUT!");
    assert_eq!(outcome_banner(Outcome::StaminaOut { loser: 0 }, None), "TOPPLE!");
    assert_eq!(outcome_banner(Outcome::Simultaneous, None), "DRAW!");
}

const SCREEN_COUNT: usize = 12;

fn screen_idx(s: Screen) -> usize {
    match s {
        Screen::Boot => 0,
        Screen::Title => 1,
        Screen::MainMenu => 2,
        Screen::TopSelect => 3,
        Screen::Garage => 4,
        Screen::Settings => 5,
        Screen::Match(MatchPhase::Intro) => 6,
        Screen::Match(MatchPhase::Launch) => 7,
        Screen::Match(MatchPhase::Fight) => 8,
        Screen::Match(MatchPhase::Decided) => 9,
        Screen::Match(MatchPhase::RoundResult) => 10,
        Screen::MatchOver => 11,
    }
}

fn dash() -> InputState {
    InputState { dash: true, ..Default::default() }
}

fn dir(dx: i8, dy: i8) -> InputState {
    InputState { dir_x: dx, dir_y: dy, ..Default::default() }
}

fn guard() -> InputState {
    InputState { guard: true, ..Default::default() }
}

/// Drives the flow with a stand-in host: the launch locks on the third
/// dash press, and each fight is decided after a fixed number of frames
/// with the AI winning by stamina-out.
struct Driver {
    flow: FlowState,
    visited: [bool; SCREEN_COUNT],
    exited: [bool; SCREEN_COUNT],
    launch_presses: u32,
    fight_frames: u32,
    last_actions: FlowActions,
    match_live: bool,
    transitions: Vec<(Screen, Screen)>,
}

impl Driver {
    fn new(seed: u64) -> Self {
        let flow = FlowState::new(seed);
        let mut d = Driver {
            flow,
            visited: [false; SCREEN_COUNT],
            exited: [false; SCREEN_COUNT],
            launch_presses: 0,
            fight_frames: 0,
            last_actions: FlowActions {
                clear_match: false,
                begin_round: false,
                roll_ai_choice: false,
                spawn_fight: false,
                refresh_preview: false,
            },
            match_live: false,
            transitions: Vec::new(),
        };
        d.visited[screen_idx(d.flow.screen)] = true;
        d
    }

    fn advance(&mut self, input: InputState, esc: bool) {
        let before = self.flow.screen;
        let report = match self.flow.sim_work(input, esc) {
            SimWork::Nothing => SimReport::Idle,
            SimWork::StepLaunch => {
                if input.dash && !self.flow.prev_input.dash {
                    self.launch_presses += 1;
                }
                if self.launch_presses >= 3 {
                    SimReport::LaunchLocked
                } else {
                    SimReport::LaunchAiming
                }
            }
            SimWork::StepFight => {
                self.fight_frames += 1;
                if self.fight_frames >= 50 {
                    SimReport::FightDecided { outcome: Outcome::StaminaOut { loser: 0 }, crash_windows: [0, 0] }
                } else {
                    SimReport::FightRunning
                }
            }
        };
        let actions = self.flow.advance(input, esc, report);
        if actions.begin_round {
            self.launch_presses = 0;
            self.fight_frames = 0;
            self.match_live = true;
        }
        if actions.clear_match {
            self.match_live = false;
        }
        self.last_actions = actions;
        let after = self.flow.screen;
        self.visited[screen_idx(after)] = true;
        if before != after {
            self.exited[screen_idx(before)] = true;
            self.transitions.push((before, after));
        }
    }

    fn step(&mut self, input: InputState) {
        self.advance(input, false);
    }

    fn tap(&mut self, input: InputState) {
        self.step(input);
        self.step(InputState::default());
    }

    fn run_until(&mut self, input: InputState, cap: u32, want: Screen) {
        for _ in 0..cap {
            if self.flow.screen == want {
                return;
            }
            self.step(input);
        }
        panic!("stuck on {:?} waiting for {:?}", self.flow.screen, want);
    }
}

fn enter_match(d: &mut Driver) {
    d.run_until(InputState::default(), 100, Screen::Title);
    d.tap(dash());
    d.tap(dash());
    d.tap(dash());
    assert_eq!(d.flow.screen, Screen::Match(MatchPhase::Intro));
}

fn enter_launch(d: &mut Driver) {
    enter_match(d);
    d.run_until(dash(), 200, Screen::Match(MatchPhase::Launch));
}

fn enter_fight(d: &mut Driver) {
    enter_launch(d);
    d.step(InputState::default());
    d.tap(dash());
    d.tap(dash());
    d.tap(dash());
    assert_eq!(d.flow.screen, Screen::Match(MatchPhase::Fight));
}

fn enter_decided(d: &mut Driver) {
    enter_fight(d);
    d.run_until(InputState::default(), 1000, Screen::Match(MatchPhase::Decided));
}

fn enter_round_result(d: &mut Driver) {
    enter_decided(d);
    d.run_until(InputState::default(), 200, Screen::Match(MatchPhase::RoundResult));
}

fn assert_aborted(d: &mut Driver) {
    d.advance(InputState::default(), true);
    assert_eq!(d.flow.screen, Screen::MainMenu);
    assert!(d.last_actions.clear_match);
    assert!(!d.match_live);
    assert!(!d.flow.quit_requested, "match abort must not quit the game");
}

#[test]
fn esc_aborts_a_match_back_to_main_menu() {
    let mut d = Driver::new(1);
    enter_match(&mut d);
    assert_aborted(&mut d);
}

#[test]
fn esc_aborts_launch_phase_back_to_main_menu() {
    let mut d = Driver::new(2);
    enter_launch(&mut d);
    assert_aborted(&mut d);
}

#[test]
fn esc_aborts_fight_phase_back_to_main_menu() {
    let mut d = Driver::new(3);
    enter_fight(&mut d);
    assert_aborted(&mut d);
}

#[test]
fn esc_aborts_decided_phase_back_to_main_menu() {
    let mut d = Driver::new(4);
    enter_decided(&mut d);
    assert_aborted(&mut d);
}

#[test]
fn esc_aborts_round_result_phase_back_to_main_menu() {
    let mut d = Driver::new(5);
    enter_round_result(&mut d);
    assert_aborted(&mut d);
}

#[test]
fn every_screen_is_reachable_none_is_a_dead_end_and_a_match_terminates() {
    let mut d = Driver::new(0xF10C_A5ED);
    d.run_until(InputState::default(), 100, Screen::Title);
    d.tap(dash());
    assert_eq!(d.flow.screen, Screen::MainMenu);

    d.tap(dir(0, 1));
    d.tap(dash());
    assert_eq!(d.flow.screen, Screen::Garage);
    d.tap(dir(-1, 0));
    assert_eq!(d.flow.parts, [1, 0, 0, 0, 0], "Right on the Frame slot picks the next frame");
    d.tap(dir(1, 0));
    assert_eq!(d.flow.parts, [0, 0, 0, 0, 0]);
    d.tap(dir(1, 0));
    assert_eq!(d.flow.parts, [3, 0, 0, 0, 0], "Left from part 0 wraps to the last part");
    d.tap(guard());
    assert_eq!(d.flow.screen, Screen::MainMenu);

    d.tap(dir(0, 1));
    d.tap(dash());
    assert_eq!(d.flow.screen, Screen::Settings);
    let music_before = d.flow.settings.music_vol;
    d.tap(dir(-1, 0));
    assert_eq!(d.flow.settings.music_vol, (music_before + 1).min(10));
    d.tap(dir(1, 0));
    assert_eq!(d.flow.settings.music_vol, music_before);
    d.tap(guard());
    assert_eq!(d.flow.screen, Screen::MainMenu);

    d.tap(dir(0, -1));
    d.tap(dir(0, -1));
    d.tap(dash());
    assert_eq!(d.flow.screen, Screen::TopSelect);
    d.tap(guard());
    assert_eq!(d.flow.screen, Screen::MainMenu);
    d.tap(dash());
    assert_eq!(d.flow.screen, Screen::TopSelect);
    d.tap(dir(0, 1));
    let cursor = d.flow.select_cursor;
    d.tap(dash());
    assert_eq!(d.flow.screen, Screen::Match(MatchPhase::Intro));
    assert_eq!(d.flow.p1_pick, cursor);
    assert!(d.flow.ai_pick < 7);
    assert_eq!(d.flow.score, [0, 0]);

    let mut rounds = 0;
    loop {
        rounds += 1;
        assert!(rounds <= 12, "match failed to terminate (score {:?})", d.flow.score);
        d.run_until(dash(), 200, Screen::Match(MatchPhase::Launch));
        d.step(InputState::default());
        d.tap(dash());
        d.tap(dash());
        d.tap(dash());
        assert_eq!(d.flow.screen, Screen::Match(MatchPhase::Fight));
        d.run_until(InputState::default(), 1000, Screen::Match(MatchPhase::Decided));
        assert_eq!(d.flow.last_winner, Some(1));
        assert_eq!(d.flow.last_round_end, Some(RoundEnd::Survivor));
        d.run_until(InputState::default(), 200, Screen::Match(MatchPhase::RoundResult));
        d.tap(dash());
        match d.flow.screen {
            Screen::MatchOver => break,
            Screen::Match(MatchPhase::Intro) => {}
            other => panic!("RoundResult must go to Intro or MatchOver, got {other:?}"),
        }
    }
    assert_eq!(rounds, 4, "one point per round to the AI");
    assert!(d.flow.score[0] >= MATCH_WIN_POINTS || d.flow.score[1] >= MATCH_WIN_POINTS);
    d.tap(dash());
    assert_eq!(d.flow.screen, Screen::MainMenu);
    assert!(!d.match_live, "match teardown must drop the world");

    assert!(!d.flow.quit_requested);
    d.tap(dir(0, 1));
    d.tap(dir(0, 1));
    d.tap(dir(0, 1));
    d.tap(dash());
    assert!(d.flow.quit_requested);

    for i in 0..SCREEN_COUNT {
        assert!(d.visited[i], "screen {i} was never visited");
        assert!(d.exited[i], "screen {i} was never exited");
    }
}

#[test]
fn identical_scripts_replay_to_identical_flow_state() {
    let script = |seed: u64| {
        let mut d = Driver::new(seed);
        enter_decided(&mut d);
        d.run_until(InputState::default(), 200, Screen::Match(MatchPhase::RoundResult));
        d.flow
    };
    assert_eq!(script(77), script(77));
    assert_ne!(script(77).match_seed, script(78).match_seed);
}

#[test]
fn boot_waits_its_frames_then_title_esc_quits() {
    let mut flow = FlowState::new(9);
    for _ in 0..30 {
        flow.advance(InputState::default(), false, SimReport::Idle);
        assert_eq!(flow.screen, Screen::Boot);
    }
    flow.advance(InputState::default(), false, SimReport::Idle);
    assert_eq!(flow.screen, Screen::Title);
    assert_eq!(flow.frame, 0);
    flow.advance(InputState::default(), true, SimReport::Idle);
    assert!(flow.quit_requested);
    assert_eq!(flow.screen, Screen::Title);
}

#[test]
fn preset_view_of_my_bey_follows_the_garage_build() {
    let mut flow = FlowState::new(1);
    flow.parts = [1, 1, 2, 3, 0];
    let mine = flow.preset_view(lib::flow::MY_BEY_INDEX);
    let build = flow.garage_build();
    assert_eq!(mine.name, "MY BEY");
    assert_eq!(mine.stats, build.stats);
    assert_eq!(mine.silhouette, build.silhouette);
    assert_eq!(flow.preset_view(2).stats, lib::roster::preset(2).stats);
    assert_eq!(flow.preset_view(99).silhouette, lib::roster::Silhouette::Cleaver);
    assert_eq!(flow.preset_view(8).name, "Cleaver");
}

#[test]
fn seeds_are_derived_from_the_match_seed_and_round() {
    let mut flow = FlowState::new(5);
    flow.match_seed = 1234;
    flow.round = 2;
    let z = lib::rng::mix_seed(1234, 2);
    assert_eq!(flow.round_seed(), z);
    assert_eq!(flow.ai_roll_seed(), z ^ lib::flow::AI_ROLL_SEED_SALT);
    assert_eq!(flow.ai_fight_seed(), z ^ lib::flow::AI_FIGHT_SEED_SALT);
}

#[test]
fn terminal_event_is_delivered_exactly_once() {
    let mut session = GameSession::new(7, lib::save::SaveState::default());
    for _ in 0..=lib::flow::BOOT_FRAMES {
        session.advance(InputState::default(), false, SimReport::Idle);
    }
    assert!(session.advance(InputState::default(), true, SimReport::Idle).quit_requested);
    assert!(!session.advance(InputState::default(), true, SimReport::Idle).quit_requested);
    assert!(!session.advance(InputState::default(), false, SimReport::Idle).quit_requested);
}

#[test]
fn session_reports_transitions_and_applies_the_save() {
    let save = lib::save::SaveState { parts: [1, 2, 3, 0, 1], settings: lib::flow::GameSettings::default() };
    let mut session = GameSession::new(7, save);
    assert_eq!(session.save_snapshot().0, [1, 2, 3, 0, 1]);
    let mut transitions = Vec::new();
    for _ in 0..=lib::flow::BOOT_FRAMES {
        if let Some(t) = session.advance(InputState::default(), false, SimReport::Idle).transition {
            transitions.push(t);
        }
    }
    assert_eq!(transitions, vec![(Screen::Boot, Screen::Title)]);
    assert_eq!(session.presentation().screen, Screen::Title);
}

#[test]
fn session_digest_hashes_the_fields_in_order() {
    let session = GameSession::new(7, lib::save::SaveState::default());
    let mut h = lib::hash::Hasher64::default();
    h.write_u8(0);
    h.write_u32(0);
    h.write_u64(0);
    for _ in 0..5 {
        h.write_u64(0);
    }
    h.write_bytes(&lib::garage::DEFAULT_PARTS);
    h.write_u64(0);
    h.write_bytes(&[0, 0]);
    h.write_u32(0);
    h.write_u64(0);
    h.write_bytes(&[8, 8, 2, 1, 0]);
    h.write_bool(false);
    h.write_bool(false);
    h.write_bytes(&[0, 0, 0, 0, 0, 0]);
    h.write_u64(7);
    h.write_u16(InputState::default().pack());
    h.write_bool(false);
    h.write_bool(false);
    assert_eq!(session.digest().0, h.finish());
    assert_ne!(session.digest().0, 0);
}

#[test]
fn session_digest_follows_the_state() {
    let mut a = GameSession::new(7, lib::save::SaveState::default());
    let b = GameSession::new(7, lib::save::SaveState::default());
    let c = GameSession::new(8, lib::save::SaveState::default());
    assert_eq!(a.digest(), b.digest());
    assert_ne!(a.digest(), c.digest());
    a.advance(InputState::default(), false, SimReport::Idle);
    assert_ne!(a.digest(), b.digest());
}

fn documented_edge(from: Screen, to: Screen) -> bool {
    let intro = Screen::Match(MatchPhase::Intro);
    let launch = Screen::Match(MatchPhase::Launch);
    let fight = Screen::Match(MatchPhase::Fight);
    let decided = Screen::Match(MatchPhase::Decided);
    let result = Screen::Match(MatchPhase::RoundResult);
    let menus = [Screen::TopSelect, Screen::Garage, Screen::Settings];
    (from == Screen::Boot && to == Screen::Title)
        || (from == Screen::Title && to == Screen::MainMenu)
        || (from == Screen::MainMenu && menus.contains(&to))
        || (menus.contains(&from) && to == Screen::MainMenu)
        || (from == Screen::TopSelect && to == intro)
        || (from == intro && to == launch)
        || (from == launch && to == fight)
        || (from == fight && to == decided)
        || (from == decided && to == result)
        || (from == result && (to == intro || to == Screen::MatchOver))
        || (matches!(from, Screen::Match(_)) && to == Screen::MainMenu)
        || (from == Screen::MatchOver && to == Screen::MainMenu)
}

#[test]
fn screen_changes_follow_the_documented_graph() {
    let mut d = Driver::new(0x5EED);
    enter_fight(&mut d);
    d.advance(InputState::default(), true);
    d.step(InputState::default());
    d.tap(dash());
    d.tap(dash());
    for _ in 0..8 {
        d.run_until(dash(), 200, Screen::Match(MatchPhase::Launch));
        d.step(InputState::default());
        d.tap(dash());
        d.tap(dash());
        d.tap(dash());
        d.run_until(InputState::default(), 1000, Screen::Match(MatchPhase::Decided));
        d.run_until(InputState::default(), 200, Screen::Match(MatchPhase::RoundResult));
        d.tap(dash());
        if d.flow.screen == Screen::MatchOver {
            break;
        }
    }
    assert_eq!(d.flow.screen, Screen::MatchOver);
    d.tap(dash());
    assert_eq!(d.flow.screen, Screen::MainMenu);
    assert!(d.transitions.len() >= 20);
    for &(from, to) in &d.transitions {
        assert!(documented_edge(from, to), "{from:?} -> {to:?}");
    }
}

fn round_result_state(round: u32, score: [u8; 2]) -> FlowState {
    let mut f = FlowState::new(3);
    f.screen = Screen::Match(MatchPhase::RoundResult);
    f.round = round;
    f.score = score;
    f
}

#[test]
fn round_result_at_the_last_round_number_still_aborts_and_ends() {
    let dash_in = InputState { dash: true, ..InputState::default() };
    let f = round_result_state(u32::MAX, [1, 2]);
    assert!(advance_ok_for(&f, InputState::default(), true, &SimReport::Idle));
    let mut a = f;
    a.advance(InputState::default(), true, SimReport::Idle);
    assert_eq!(a.screen, Screen::MainMenu);
    assert!(!a.quit_requested);
    let f = round_result_state(u32::MAX, [4, 2]);
    assert!(advance_ok_for(&f, dash_in, false, &SimReport::Idle));
    let mut b = f;
    b.advance(dash_in, false, SimReport::Idle);
    assert_eq!(b.screen, Screen::MatchOver);
    assert_eq!(b.round, u32::MAX);
    let f = round_result_state(u32::MAX, [1, 2]);
    assert!(!advance_ok_for(&f, dash_in, false, &SimReport::Idle));
    let mut c = round_result_state(5, [1, 2]);
    c.advance(dash_in, false, SimReport::Idle);
    assert_eq!(c.screen, Screen::Match(MatchPhase::Intro));
    assert_eq!((c.round, c.score, c.frame), (6, [1, 2], 0));
}
