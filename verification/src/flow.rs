//! Screen flow: settings, menu cursors, banners, and the screen state
//! machine's decision logic. Everything is driven by flow frames (one per
//! 60 Hz host tick), never by the wall clock.
use vstd::prelude::*;
use crate::combat::{RoundEnd, outcome_wf, round_points, spec_points, spec_round_points};
use crate::garage::{CustomBuild, resolve, spec_build_silhouette, spec_resolve_stats, DEFAULT_PARTS};
use crate::input::{InputState, spec_neutral};
use crate::minigame::Difficulty;
use crate::physics::Outcome;
use crate::rng::{Rng, mix_seed, spec_mix_seed, spec_output, spec_seed_state, spec_step};
use crate::roster::{
    Preset,
    preset,
    spec_preset_accent,
    spec_preset_flavor,
    spec_preset_name,
    spec_preset_silhouette,
    spec_preset_spin_dir,
    spec_preset_stats,
    spec_silhouette_index,
    PRESET_COUNT,
};
use crate::save::SaveState;

verus! {

/// 120 Hz sim ticks executed per flow frame.
pub const SIM_STEPS_PER_FLOW_FRAME: u32 = 2;
/// Boot screen auto-advances after this many flow frames.
pub const BOOT_FRAMES: u32 = 30;
/// Intro countdown segment lengths, in flow frames.
pub const INTRO_READY_FRAMES: u32 = 24;
pub const INTRO_NUMERAL_FRAMES: u32 = 30;
pub const INTRO_GO_FRAMES: u32 = 6;
pub const INTRO_TOTAL_FRAMES: u32 = 120;
/// Decided-phase banner hold before RoundResult, in flow frames.
pub const DECIDED_HOLD_FRAMES: u32 = 90;
/// First to this many points wins the match.
pub const MATCH_WIN_POINTS: u8 = 4;

/// Arrow-key intent constants (camera-relative).
pub const DIR_UP: i8 = -1;
pub const DIR_DOWN: i8 = 1;
pub const DIR_RIGHT: i8 = -1;
pub const DIR_LEFT: i8 = 1;

/// Number of main-menu rows: QUICK BATTLE, GARAGE, SETTINGS, QUIT.
pub const MAIN_MENU_LEN: usize = 4;
/// Number of settings rows.
pub const SETTINGS_ROWS: usize = 6;
/// TopSelect entries: the seven presets plus the garage build.
pub const TOP_SELECT_ENTRIES: usize = 8;
/// TopSelect cursor value meaning the garage build.
pub const MY_BEY_INDEX: usize = 7;
/// Garage slot count.
pub const GARAGE_SLOTS: usize = 5;
/// Parts per garage slot.
pub const GARAGE_PARTS_PER_SLOT: usize = 4;

/// Match sub-phase.
#[derive(Clone, Copy, Debug, PartialEq, Eq, Structural)]
pub enum MatchPhase {
    Intro,
    Launch,
    Fight,
    Decided,
    RoundResult,
}

/// Top-level screen.
#[derive(Clone, Copy, Debug, PartialEq, Eq, Structural)]
pub enum Screen {
    Boot,
    Title,
    MainMenu,
    TopSelect,
    Garage,
    Settings,
    Match(MatchPhase),
    MatchOver,
}

/// Screen-shake intensity setting.
#[derive(Clone, Copy, Debug, PartialEq, Eq, Structural)]
pub enum ShakeLevel {
    Off,
    Low,
    Normal,
    High,
}

impl ShakeLevel {
    pub fn label(self) -> (s: &'static str)
        ensures
            s@ == (match self {
                ShakeLevel::Off => "OFF"@,
                ShakeLevel::Low => "LOW"@,
                ShakeLevel::Normal => "NORMAL"@,
                ShakeLevel::High => "HIGH"@,
            }),
    {
        match self {
            ShakeLevel::Off => "OFF",
            ShakeLevel::Low => "LOW",
            ShakeLevel::Normal => "NORMAL",
            ShakeLevel::High => "HIGH",
        }
    }
}

/// Window scale setting (scales the window, never the internal buffer).
#[derive(Clone, Copy, Debug, PartialEq, Eq, Structural)]
pub enum WindowScale {
    X1,
    X1_5,
    X2,
    Fullscreen,
}

impl WindowScale {
    pub fn label(self) -> (s: &'static str)
        ensures
            s@ == (match self {
                WindowScale::X1 => "1X"@,
                WindowScale::X1_5 => "1.5X"@,
                WindowScale::X2 => "2X"@,
                WindowScale::Fullscreen => "FULL"@,
            }),
    {
        match self {
            WindowScale::X1 => "1X",
            WindowScale::X1_5 => "1.5X",
            WindowScale::X2 => "2X",
            WindowScale::Fullscreen => "FULL",
        }
    }
}

/// The settings block.
#[derive(Clone, Copy, Debug, PartialEq, Eq, Structural)]
pub struct GameSettings {
    /// Music volume, `0..=10`.
    pub music_vol: u8,
    /// SFX volume, `0..=10`.
    pub sfx_vol: u8,
    pub shake: ShakeLevel,
    pub difficulty: Difficulty,
    pub window_scale: WindowScale,
    pub colorblind: bool,
}

/// Default settings: volumes 8, Normal shake and difficulty, 1x window.
pub open spec fn spec_default_settings() -> GameSettings {
    GameSettings {
        music_vol: 8,
        sfx_vol: 8,
        shake: ShakeLevel::Normal,
        difficulty: Difficulty::Normal,
        window_scale: WindowScale::X1,
        colorblind: false,
    }
}

impl Default for GameSettings {
    fn default() -> (s: GameSettings)
        ensures
            s == spec_default_settings(),
    {
        GameSettings {
            music_vol: 8,
            sfx_vol: 8,
            shake: ShakeLevel::Normal,
            difficulty: Difficulty::Normal,
            window_scale: WindowScale::X1,
            colorblind: false,
        }
    }
}

/// Tier name for the settings screen.
pub fn difficulty_label(d: Difficulty) -> (s: &'static str)
    ensures
        s@ == (match d {
            Difficulty::Easy => "EASY"@,
            Difficulty::Normal => "NORMAL"@,
            Difficulty::Hard => "HARD"@,
            Difficulty::Ace => "ACE"@,
        }),
{
    match d {
        Difficulty::Easy => "EASY",
        Difficulty::Normal => "NORMAL",
        Difficulty::Hard => "HARD",
        Difficulty::Ace => "ACE",
    }
}

/// Intro banner text as a function of the Intro frame counter: READY? for
/// 24 frames, then "3", "2", "1" for 30 frames each, then GO!.
pub fn intro_banner(frame: u32) -> (s: &'static str)
    ensures
        s@ == (if frame < 24 {
            "READY?"@
        } else if frame < 54 {
            "3"@
        } else if frame < 84 {
            "2"@
        } else if frame < 114 {
            "1"@
        } else {
            "GO!"@
        }),
{
    if frame < INTRO_READY_FRAMES {
        "READY?"
    } else if frame < INTRO_READY_FRAMES + INTRO_NUMERAL_FRAMES {
        "3"
    } else if frame < INTRO_READY_FRAMES + 2 * INTRO_NUMERAL_FRAMES {
        "2"
    } else if frame < INTRO_READY_FRAMES + 3 * INTRO_NUMERAL_FRAMES {
        "1"
    } else {
        "GO!"
    }
}

/// Outcome banner text: a Crash-Out always shows CRASH-OUT!!, otherwise the
/// per-outcome banner.
pub fn outcome_banner(outcome: Outcome, end: Option<RoundEnd>) -> (s: &'static str)
    ensures
        s@ == (if end == Some(RoundEnd::CrashOut) {
            "CRASH-OUT!!"@
        } else {
            match outcome {
                Outcome::RingOut { .. } => "RING OUT!"@,
                Outcome::StaminaOut { .. } => "TOPPLE!"@,
                Outcome::Simultaneous => "DRAW!"@,
            }
        }),
{
    if let Some(RoundEnd::CrashOut) = end {
        return "CRASH-OUT!!";
    }
    match outcome {
        Outcome::RingOut { .. } => "RING OUT!",
        Outcome::StaminaOut { .. } => "TOPPLE!",
        Outcome::Simultaneous => "DRAW!",
    }
}

/// `i` moved by `delta` within `0..n`, wrapping.
pub open spec fn spec_cycle_index(i: int, n: int, delta: int) -> int {
    (i + delta + n) % n
}

/// Cycle an index within `n` variants by `delta`, wrapping.
pub fn cycle_index(i: usize, n: usize, delta: i32) -> (r: usize)
    requires
        0 < n <= 0x1000_0000,
        i < n,
        -(n as int) <= delta <= n,
    ensures
        r == spec_cycle_index(i as int, n as int, delta as int),
        r < n,
{
    ((i as i64 + delta as i64 + n as i64) % (n as i64)) as usize
}

/// Position of a shake level in its cycling order.
pub open spec fn spec_shake_index(s: ShakeLevel) -> int {
    match s {
        ShakeLevel::Off => 0,
        ShakeLevel::Low => 1,
        ShakeLevel::Normal => 2,
        ShakeLevel::High => 3,
    }
}

pub open spec fn spec_shake_at(i: int) -> ShakeLevel {
    if i == 0 {
        ShakeLevel::Off
    } else if i == 1 {
        ShakeLevel::Low
    } else if i == 2 {
        ShakeLevel::Normal
    } else {
        ShakeLevel::High
    }
}

pub open spec fn spec_difficulty_index(d: Difficulty) -> int {
    match d {
        Difficulty::Easy => 0,
        Difficulty::Normal => 1,
        Difficulty::Hard => 2,
        Difficulty::Ace => 3,
    }
}

pub open spec fn spec_difficulty_at(i: int) -> Difficulty {
    if i == 0 {
        Difficulty::Easy
    } else if i == 1 {
        Difficulty::Normal
    } else if i == 2 {
        Difficulty::Hard
    } else {
        Difficulty::Ace
    }
}

pub open spec fn spec_window_scale_index(w: WindowScale) -> int {
    match w {
        WindowScale::X1 => 0,
        WindowScale::X1_5 => 1,
        WindowScale::X2 => 2,
        WindowScale::Fullscreen => 3,
    }
}

pub open spec fn spec_window_scale_at(i: int) -> WindowScale {
    if i == 0 {
        WindowScale::X1
    } else if i == 1 {
        WindowScale::X1_5
    } else if i == 2 {
        WindowScale::X2
    } else {
        WindowScale::Fullscreen
    }
}

pub open spec fn spec_cycle_shake(s: ShakeLevel, delta: int) -> ShakeLevel {
    spec_shake_at(spec_cycle_index(spec_shake_index(s), 4, delta))
}

pub open spec fn spec_cycle_difficulty(d: Difficulty, delta: int) -> Difficulty {
    spec_difficulty_at(spec_cycle_index(spec_difficulty_index(d), 4, delta))
}

pub open spec fn spec_cycle_window_scale(w: WindowScale, delta: int) -> WindowScale {
    spec_window_scale_at(spec_cycle_index(spec_window_scale_index(w), 4, delta))
}

fn shake_index(s: ShakeLevel) -> (i: usize)
    ensures
        i == spec_shake_index(s),
{
    match s {
        ShakeLevel::Off => 0,
        ShakeLevel::Low => 1,
        ShakeLevel::Normal => 2,
        ShakeLevel::High => 3,
    }
}

fn shake_at(i: usize) -> (s: ShakeLevel)
    ensures
        s == spec_shake_at(i as int),
{
    if i == 0 {
        ShakeLevel::Off
    } else if i == 1 {
        ShakeLevel::Low
    } else if i == 2 {
        ShakeLevel::Normal
    } else {
        ShakeLevel::High
    }
}

fn difficulty_index(d: Difficulty) -> (i: usize)
    ensures
        i == spec_difficulty_index(d),
{
    match d {
        Difficulty::Easy => 0,
        Difficulty::Normal => 1,
        Difficulty::Hard => 2,
        Difficulty::Ace => 3,
    }
}

fn difficulty_at(i: usize) -> (d: Difficulty)
    ensures
        d == spec_difficulty_at(i as int),
{
    if i == 0 {
        Difficulty::Easy
    } else if i == 1 {
        Difficulty::Normal
    } else if i == 2 {
        Difficulty::Hard
    } else {
        Difficulty::Ace
    }
}

fn window_scale_index(w: WindowScale) -> (i: usize)
    ensures
        i == spec_window_scale_index(w),
{
    match w {
        WindowScale::X1 => 0,
        WindowScale::X1_5 => 1,
        WindowScale::X2 => 2,
        WindowScale::Fullscreen => 3,
    }
}

fn window_scale_at(i: usize) -> (w: WindowScale)
    ensures
        w == spec_window_scale_at(i as int),
{
    if i == 0 {
        WindowScale::X1
    } else if i == 1 {
        WindowScale::X1_5
    } else if i == 2 {
        WindowScale::X2
    } else {
        WindowScale::Fullscreen
    }
}

/// Cycle the shake level by `delta` steps, wrapping in both directions.
pub fn cycle_shake(s: ShakeLevel, delta: i32) -> (r: ShakeLevel)
    requires
        -4 <= delta <= 4,
    ensures
        r == spec_cycle_shake(s, delta as int),
{
    shake_at(cycle_index(shake_index(s), 4, delta))
}

/// Cycle the difficulty by `delta` steps, wrapping in both directions.
pub fn cycle_difficulty(d: Difficulty, delta: i32) -> (r: Difficulty)
    requires
        -4 <= delta <= 4,
    ensures
        r == spec_cycle_difficulty(d, delta as int),
{
    difficulty_at(cycle_index(difficulty_index(d), 4, delta))
}

/// Cycle the window scale by `delta` steps, wrapping in both directions.
pub fn cycle_window_scale(w: WindowScale, delta: i32) -> (r: WindowScale)
    requires
        -4 <= delta <= 4,
    ensures
        r == spec_cycle_window_scale(w, delta as int),
{
    window_scale_at(cycle_index(window_scale_index(w), 4, delta))
}

/// `v` clamped into `0..=10`.
pub open spec fn spec_clamp_volume(v: int) -> u8 {
    if v < 0 {
        0u8
    } else if v > 10 {
        10u8
    } else {
        v as u8
    }
}

/// Move a volume by `delta`, clamped into `0..=10`.
pub fn adjust_volume(v: u8, delta: i32) -> (r: u8)
    ensures
        r == spec_clamp_volume(v + delta),
        r <= 10,
{
    let x: i64 = v as i64 + delta as i64;
    if x < 0 {
        0
    } else if x > 10 {
        10
    } else {
        x as u8
    }
}

/// Effect of adjusting settings row `row` by `delta` (rows: music, sfx,
/// shake, difficulty, window scale, and colour-blind mode for any other row,
/// which toggles).
pub open spec fn spec_adjust_setting(s: GameSettings, row: int, delta: int) -> GameSettings {
    if row == 0 {
        GameSettings { music_vol: spec_clamp_volume(s.music_vol + delta), ..s }
    } else if row == 1 {
        GameSettings { sfx_vol: spec_clamp_volume(s.sfx_vol + delta), ..s }
    } else if row == 2 {
        GameSettings { shake: spec_cycle_shake(s.shake, delta), ..s }
    } else if row == 3 {
        GameSettings { difficulty: spec_cycle_difficulty(s.difficulty, delta), ..s }
    } else if row == 4 {
        GameSettings { window_scale: spec_cycle_window_scale(s.window_scale, delta), ..s }
    } else {
        GameSettings { colorblind: !s.colorblind, ..s }
    }
}

/// Adjust one settings row in place.
pub fn adjust_setting(s: &mut GameSettings, row: usize, delta: i32)
    requires
        -4 <= delta <= 4,
    ensures
        *final(s) == spec_adjust_setting(*old(s), row as int, delta as int),
{
    if row == 0 {
        s.music_vol = adjust_volume(s.music_vol, delta);
    } else if row == 1 {
        s.sfx_vol = adjust_volume(s.sfx_vol, delta);
    } else if row == 2 {
        s.shake = cycle_shake(s.shake, delta);
    } else if row == 3 {
        s.difficulty = cycle_difficulty(s.difficulty, delta);
    } else if row == 4 {
        s.window_scale = cycle_window_scale(s.window_scale, delta);
    } else {
        s.colorblind = !s.colorblind;
    }
}

/// Number of selectable parts in garage slot `slot` (Frame or stat slot).
pub fn garage_slot_width(slot: usize) -> (w: usize)
    requires
        slot < GARAGE_SLOTS,
    ensures
        w == GARAGE_PARTS_PER_SLOT,
{
    if slot == 0 {
        crate::garage::FRAME_COUNT
    } else {
        crate::garage::PARTS_PER_SLOT
    }
}

/// Stepping a setting up and then back down leaves it unchanged (the
/// colour-blind row flips twice), unless a volume was already at its top.
pub proof fn law_adjust_setting_is_undone_by_the_opposite_step(s: GameSettings, row: int)
    requires
        row == 0 ==> s.music_vol <= 9,
        row == 1 ==> s.sfx_vol <= 9,
    ensures
        spec_adjust_setting(spec_adjust_setting(s, row, 1), row, -1) == s,
{
}

/// Cycling settings enums by one step forwards and then backwards returns
/// the starting value, and four steps in either direction is a full turn.
pub proof fn law_cycles_wrap_in_both_directions(sh: ShakeLevel, d: Difficulty, w: WindowScale)
    ensures
        spec_cycle_shake(spec_cycle_shake(sh, 1), -1) == sh,
        spec_cycle_shake(spec_cycle_shake(sh, -1), 1) == sh,
        spec_cycle_difficulty(spec_cycle_difficulty(d, 1), -1) == d,
        spec_cycle_difficulty(spec_cycle_difficulty(d, -1), 1) == d,
        spec_cycle_window_scale(spec_cycle_window_scale(w, 1), -1) == w,
        spec_cycle_window_scale(spec_cycle_window_scale(w, -1), 1) == w,
        spec_cycle_shake(sh, 4) == sh,
        spec_cycle_difficulty(d, -4) == d,
{
}

// ----------------------------------------------------------------------
// Screen state machine
// ----------------------------------------------------------------------

/// MY BEY's display name on the TopSelect and Garage screens.
pub const MY_BEY_NAME: &'static str = "MY BEY";

/// MY BEY's flavor line.
pub const MY_BEY_FLAVOR: &'static str = "Built in the garage. Whatever it is, it's yours.";

/// Salt XORed into the round seed for the AI's launch roll.
pub const AI_ROLL_SEED_SALT: u64 = 0x00A1_0000_0000_0001;

/// Salt XORed into the round seed for the Fight-phase AI controller.
pub const AI_FIGHT_SEED_SALT: u64 = 0x00A2_0000_0000_0001;

/// Rising edges of the two input channels between consecutive frames.
/// `any_key` is any button or direction edge; Escape is never "any key".
#[derive(Clone, Copy, Debug, PartialEq, Eq, Structural)]
pub struct Edges {
    pub up: bool,
    pub down: bool,
    pub left: bool,
    pub right: bool,
    pub dash: bool,
    pub back: bool,
    pub esc: bool,
    pub any_key: bool,
}

/// The edges seen when input goes from `prev` to `cur` (Guard is "back").
pub open spec fn spec_edges(prev: InputState, cur: InputState, prev_esc: bool, esc_now: bool) -> Edges {
    let up = cur.dir_y == DIR_UP && prev.dir_y != DIR_UP;
    let down = cur.dir_y == DIR_DOWN && prev.dir_y != DIR_DOWN;
    let left = cur.dir_x == DIR_LEFT && prev.dir_x != DIR_LEFT;
    let right = cur.dir_x == DIR_RIGHT && prev.dir_x != DIR_RIGHT;
    let dash = cur.dash && !prev.dash;
    let special = cur.special && !prev.special;
    let back = cur.guard && !prev.guard;
    let hop = cur.hop && !prev.hop;
    let carve = cur.carve && !prev.carve;
    let anchor = cur.anchor && !prev.anchor;
    Edges {
        up,
        down,
        left,
        right,
        dash,
        back,
        esc: esc_now && !prev_esc,
        any_key: dash || special || back || hop || carve || anchor || up || down || left || right,
    }
}

fn detect_edges(prev: InputState, cur: InputState, prev_esc: bool, esc_now: bool) -> (e: Edges)
    ensures
        e == spec_edges(prev, cur, prev_esc, esc_now),
{
    let up = cur.dir_y == DIR_UP && prev.dir_y != DIR_UP;
    let down = cur.dir_y == DIR_DOWN && prev.dir_y != DIR_DOWN;
    let left = cur.dir_x == DIR_LEFT && prev.dir_x != DIR_LEFT;
    let right = cur.dir_x == DIR_RIGHT && prev.dir_x != DIR_RIGHT;
    let dash = cur.dash && !prev.dash;
    let special = cur.special && !prev.special;
    let back = cur.guard && !prev.guard;
    let hop = cur.hop && !prev.hop;
    let carve = cur.carve && !prev.carve;
    let anchor = cur.anchor && !prev.anchor;
    let esc = esc_now && !prev_esc;
    let any_key = dash || special || back || hop || carve || anchor || up || down || left || right;
    Edges { up, down, left, right, dash, back, esc, any_key }
}

/// Simulation work a frame asks of the host before the flow decides.
#[derive(Clone, Copy, Debug, PartialEq, Eq, Structural)]
pub enum SimWork {
    /// Nothing to simulate this frame.
    Nothing,
    /// Step the launch minigame up to `SIM_STEPS_PER_FLOW_FRAME` times,
    /// stopping at a lock.
    StepLaunch,
    /// Step the fight world up to `SIM_STEPS_PER_FLOW_FRAME` times, stopping
    /// once it has an outcome.
    StepFight,
}

/// What the host's simulation work produced.
#[derive(Clone, Copy, Debug, PartialEq, Eq)]
pub enum SimReport {
    /// No simulation ran.
    Idle,
    /// The minigame ran and is still aiming.
    LaunchAiming,
    /// The minigame locked a launch.
    LaunchLocked,
    /// The fight stepped and is still undecided.
    FightRunning,
    /// The fight stepped and has an outcome; `crash_windows` are the two
    /// tops' remaining Crash-Out windows.
    FightDecided { outcome: Outcome, crash_windows: [u16; 2] },
    /// The fight screen had no world to step.
    FightWithoutWorld,
}

/// Host-side work the flow asks for after a frame, in this order: tear the
/// match down, start a round (fresh minigame and preview), pre-roll the
/// AI's launch, spawn the fight world from the locked launch, refresh the
/// cosmetic preview.
#[derive(Clone, Copy, Debug, PartialEq, Eq, Structural)]
pub struct FlowActions {
    pub clear_match: bool,
    pub begin_round: bool,
    pub roll_ai_choice: bool,
    pub spawn_fight: bool,
    pub refresh_preview: bool,
}

pub open spec fn no_actions() -> FlowActions {
    FlowActions {
        clear_match: false,
        begin_round: false,
        roll_ai_choice: false,
        spawn_fight: false,
        refresh_preview: false,
    }
}

fn none_actions() -> (a: FlowActions)
    ensures
        a == no_actions(),
{
    FlowActions {
        clear_match: false,
        begin_round: false,
        roll_ai_choice: false,
        spawn_fight: false,
        refresh_preview: false,
    }
}

/// The integer side of the game flow: screen, menu cursors, picks, garage
/// build, settings and match score. The host owns the floating-point side
/// (minigame, fight world, AI controller) and carries out the work this
/// state machine asks for.
#[derive(Clone, Copy, Debug, PartialEq, Eq)]
pub struct FlowState {
    pub screen: Screen,
    /// Flow frames on the current screen; reset on every transition.
    pub frame: u32,
    /// Flow frames since construction; never reset.
    pub total_frames: u64,
    pub menu_cursor: usize,
    pub settings_cursor: usize,
    /// TopSelect cursor: a roster index, or `MY_BEY_INDEX`.
    pub select_cursor: usize,
    pub p1_pick: usize,
    /// The AI's pick, always a roster index.
    pub ai_pick: usize,
    pub parts: [u8; 5],
    pub garage_slot: usize,
    /// Match score `[P1, AI]`.
    pub score: [u8; 2],
    /// 0-based round index.
    pub round: u32,
    pub match_seed: u64,
    pub settings: GameSettings,
    /// Set by Quit or by Escape on Title/MainMenu; never cleared.
    pub quit_requested: bool,
    pub last_outcome: Option<Outcome>,
    pub last_winner: Option<u8>,
    pub last_points: u8,
    pub last_round_end: Option<RoundEnd>,
    pub base_seed: u64,
    pub prev_input: InputState,
    pub prev_esc: bool,
}

/// A fresh flow at the Boot screen.
pub open spec fn spec_new_flow(base_seed: u64) -> FlowState {
    FlowState {
        screen: Screen::Boot,
        frame: 0,
        total_frames: 0,
        menu_cursor: 0,
        settings_cursor: 0,
        select_cursor: 0,
        p1_pick: 0,
        ai_pick: 0,
        parts: DEFAULT_PARTS,
        garage_slot: 0,
        score: [0u8, 0u8],
        round: 0,
        match_seed: 0,
        settings: spec_default_settings(),
        quit_requested: false,
        last_outcome: None,
        last_winner: None,
        last_points: 0,
        last_round_end: None,
        base_seed,
        prev_input: spec_neutral(),
        prev_esc: false,
    }
}

/// Cursor moved back one row within `n`, wrapping.
pub open spec fn spec_cursor_back(c: usize, n: usize) -> usize {
    ((c + n - 1) % (n as int)) as usize
}

/// Cursor moved forward one row within `n`, wrapping.
pub open spec fn spec_cursor_fwd(c: usize, n: usize) -> usize {
    ((c + 1) % (n as int)) as usize
}

fn cursor_back(c: usize, n: usize) -> (r: usize)
    requires
        n > 1,
    ensures
        r == spec_cursor_back(c, n),
{
    if c == 0 {
        proof {
            vstd::arithmetic::div_mod::lemma_small_mod((n - 1) as nat, n as nat);
        }
        n - 1
    } else {
        proof {
            vstd::arithmetic::div_mod::lemma_mod_add_multiples_vanish(c - 1, n as int);
        }
        (c - 1) % n
    }
}

fn cursor_fwd(c: usize, n: usize) -> (r: usize)
    requires
        n > 1,
    ensures
        r == spec_cursor_fwd(c, n),
{
    proof {
        vstd::arithmetic::div_mod::lemma_add_mod_noop(c as int, 1, n as int);
        vstd::arithmetic::div_mod::lemma_mod_bound(c as int, n as int);
        vstd::arithmetic::div_mod::lemma_small_mod(1, n as nat);
    }
    (c % n + 1) % n
}

/// TopSelect confirm: lock P1's pick, derive the match seed from the base
/// seed and the frame count, roll the AI's roster pick from it, and zero
/// the score.
pub open spec fn spec_begin_match(s: FlowState) -> FlowState {
    let seed = spec_mix_seed(s.base_seed, s.total_frames as u32);
    FlowState {
        p1_pick: s.select_cursor,
        match_seed: seed,
        ai_pick: (spec_output(spec_step(spec_seed_state(seed))) % (PRESET_COUNT as u64)) as usize,
        score: [0u8, 0u8],
        round: 0,
        last_outcome: None,
        last_winner: None,
        last_points: 0,
        last_round_end: None,
        ..s
    }
}

/// `v + p` saturated at 255.
pub open spec fn spec_sat_add(v: u8, p: u8) -> u8 {
    if v + p > 255 {
        255u8
    } else {
        (v + p) as u8
    }
}

/// Bookkeeping of a decided round: record the outcome and, when a top won,
/// add its points (saturating) and remember winner, points and end.
pub open spec fn spec_record_round(s: FlowState, outcome: Outcome, crash_windows: [u16; 2]) -> FlowState {
    match spec_round_points(Some(outcome), crash_windows) {
        Some((w, end)) => FlowState {
            last_outcome: Some(outcome),
            score: if w == 0 {
                [spec_sat_add(s.score[0], spec_points(end)), s.score[1]]
            } else {
                [s.score[0], spec_sat_add(s.score[1], spec_points(end))]
            },
            last_winner: Some(w),
            last_points: spec_points(end),
            last_round_end: Some(end),
            ..s
        },
        None => FlowState {
            last_outcome: Some(outcome),
            last_winner: None,
            last_points: 0,
            last_round_end: None,
            ..s
        },
    }
}

/// Part index `cur` of a slot of `width` parts moved by `delta`, wrapping.
pub open spec fn spec_cycle_part(cur: u8, width: int, delta: int) -> u8 {
    ((cur + delta) % width) as u8
}

/// One screen's decision: the new state (before the frame bookkeeping),
/// the screen to move to, and the work asked of the host.
#[verifier::opaque]
pub open spec fn spec_screen_step(s: FlowState, e: Edges, report: SimReport) -> (FlowState, Option<Screen>, FlowActions) {
    let none = no_actions();
    let quit = FlowState { quit_requested: true, ..s };
    let clear = FlowActions { clear_match: true, ..none };
    match s.screen {
        Screen::Boot => (s, if s.frame >= BOOT_FRAMES { Some(Screen::Title) } else { None }, none),
        Screen::Title => if e.esc {
            (quit, None, none)
        } else if e.any_key {
            (s, Some(Screen::MainMenu), none)
        } else {
            (s, None, none)
        },
        Screen::MainMenu => {
            let c1 = if e.up { spec_cursor_back(s.menu_cursor, MAIN_MENU_LEN) } else { s.menu_cursor };
            let c2 = if e.down { spec_cursor_fwd(c1, MAIN_MENU_LEN) } else { c1 };
            let s1 = FlowState { menu_cursor: c2, ..s };
            if e.esc || e.back {
                (FlowState { quit_requested: true, ..s1 }, None, none)
            } else if e.dash {
                if c2 == 0 {
                    (s1, Some(Screen::TopSelect), none)
                } else if c2 == 1 {
                    (s1, Some(Screen::Garage), none)
                } else if c2 == 2 {
                    (s1, Some(Screen::Settings), none)
                } else if c2 == 3 {
                    (FlowState { quit_requested: true, ..s1 }, None, none)
                } else {
                    (s1, None, none)
                }
            } else {
                (s1, None, none)
            }
        },
        Screen::TopSelect => {
            let c1 = if e.up || e.left { spec_cursor_back(s.select_cursor, TOP_SELECT_ENTRIES) } else { s.select_cursor };
            let c2 = if e.down || e.right { spec_cursor_fwd(c1, TOP_SELECT_ENTRIES) } else { c1 };
            let s1 = FlowState { select_cursor: c2, ..s };
            if e.esc || e.back {
                (s1, Some(Screen::MainMenu), none)
            } else if e.dash {
                (spec_begin_match(s1), Some(Screen::Match(MatchPhase::Intro)), FlowActions { begin_round: true, ..none })
            } else {
                (s1, None, none)
            }
        },
        Screen::Garage => {
            let g1 = if e.up { spec_cursor_back(s.garage_slot, GARAGE_SLOTS) } else { s.garage_slot };
            let g2 = if e.down { spec_cursor_fwd(g1, GARAGE_SLOTS) } else { g1 };
            let s1 = FlowState { garage_slot: g2, ..s };
            let s2 = if e.left || e.right {
                let delta: int = if e.right { 1 } else { -1 };
                FlowState {
                    parts: vstd::array::spec_array_update(
                        s1.parts,
                        g2 as int,
                        spec_cycle_part(s1.parts[g2 as int], GARAGE_PARTS_PER_SLOT as int, delta),
                    ),
                    ..s1
                }
            } else {
                s1
            };
            (s2, if e.esc || e.back { Some(Screen::MainMenu) } else { None }, none)
        },
        Screen::Settings => {
            let c1 = if e.up { spec_cursor_back(s.settings_cursor, SETTINGS_ROWS) } else { s.settings_cursor };
            let c2 = if e.down { spec_cursor_fwd(c1, SETTINGS_ROWS) } else { c1 };
            let st1 = if e.right { spec_adjust_setting(s.settings, c2 as int, 1) } else { s.settings };
            let st2 = if e.left { spec_adjust_setting(st1, c2 as int, -1) } else { st1 };
            (
                FlowState { settings_cursor: c2, settings: st2, ..s },
                if e.esc || e.back { Some(Screen::MainMenu) } else { None },
                none,
            )
        },
        Screen::Match(MatchPhase::Intro) => if e.esc {
            (s, Some(Screen::MainMenu), clear)
        } else if s.frame >= INTRO_TOTAL_FRAMES {
            (s, Some(Screen::Match(MatchPhase::Launch)), FlowActions { roll_ai_choice: true, ..none })
        } else {
            (s, None, none)
        },
        Screen::Match(MatchPhase::Launch) => if e.esc {
            (s, Some(Screen::MainMenu), clear)
        } else if report is LaunchLocked {
            (s, Some(Screen::Match(MatchPhase::Fight)), FlowActions { spawn_fight: true, ..none })
        } else {
            (s, None, FlowActions { refresh_preview: true, ..none })
        },
        Screen::Match(MatchPhase::Fight) => if e.esc {
            (s, Some(Screen::MainMenu), clear)
        } else {
            match report {
                SimReport::FightDecided { outcome, crash_windows } => (
                    spec_record_round(s, outcome, crash_windows),
                    Some(Screen::Match(MatchPhase::Decided)),
                    none,
                ),
                SimReport::FightWithoutWorld => (s, Some(Screen::MainMenu), none),
                _ => (s, None, none),
            }
        },
        Screen::Match(MatchPhase::Decided) => if e.esc {
            (s, Some(Screen::MainMenu), clear)
        } else if s.frame >= DECIDED_HOLD_FRAMES {
            (s, Some(Screen::Match(MatchPhase::RoundResult)), none)
        } else {
            (s, None, none)
        },
        Screen::Match(MatchPhase::RoundResult) => if e.esc {
            (s, Some(Screen::MainMenu), clear)
        } else if e.any_key {
            if s.score[0] >= MATCH_WIN_POINTS || s.score[1] >= MATCH_WIN_POINTS {
                (s, Some(Screen::MatchOver), none)
            } else {
                (
                    FlowState { round: (s.round + 1) as u32, ..s },
                    Some(Screen::Match(MatchPhase::Intro)),
                    FlowActions { begin_round: true, ..none },
                )
            }
        } else {
            (s, None, none)
        },
        Screen::MatchOver => if e.any_key || e.esc {
            (s, Some(Screen::MainMenu), clear)
        } else {
            (s, None, none)
        },
    }
}

/// One flow frame: the screen's decision, then a transition resets the
/// per-screen frame counter (otherwise it counts up, wrapping), the total
/// frame count goes up by one (wrapping), and this frame's input becomes
/// the previous input.
pub open spec fn spec_advance(s: FlowState, input: InputState, esc: bool, report: SimReport) -> (FlowState, FlowActions) {
    let e = spec_edges(s.prev_input, input, s.prev_esc, esc);
    let (t, next, a) = spec_screen_step(s, e, report);
    let t2 = match next {
        Some(sc) => FlowState { screen: sc, frame: 0, ..t },
        None => FlowState { frame: (if t.frame == u32::MAX { 0 } else { t.frame + 1 }) as u32, ..t },
    };
    (
        FlowState {
            total_frames: (if t2.total_frames == u64::MAX { 0 } else { t2.total_frames + 1 }) as u64,
            prev_input: input,
            prev_esc: esc,
            ..t2
        },
        a,
    )
}

/// Which simulation work this frame needs: the launch or fight screens
/// simulate unless Escape was just pressed.
pub open spec fn spec_sim_work(s: FlowState, input: InputState, esc: bool) -> SimWork {
    let e = spec_edges(s.prev_input, input, s.prev_esc, esc);
    if e.esc {
        SimWork::Nothing
    } else {
        match s.screen {
            Screen::Match(MatchPhase::Launch) => SimWork::StepLaunch,
            Screen::Match(MatchPhase::Fight) => SimWork::StepFight,
            _ => SimWork::Nothing,
        }
    }
}

/// Garage frames where a Left/Right press edits the slot under the cursor
/// without an Up/Down press having moved it (which always lands in range).
pub open spec fn garage_edit_in_place(e: Edges) -> bool {
    (e.left || e.right) && !e.up && !e.down
}

/// RoundResult frames that start the next round (a key press without
/// Escape, neither player at the winning score): the round counter goes up.
pub open spec fn round_advances(s: FlowState, e: Edges) -> bool {
    !e.esc && e.any_key && s.score[0] < MATCH_WIN_POINTS && s.score[1] < MATCH_WIN_POINTS
}

/// What `advance` needs of its inputs exactly where the original would
/// panic: a garage edit in place needs the slot to index the 5-part build,
/// a round that advances needs the counter not to overflow, and a decided
/// fight that is processed must name top 0 or top 1 as loser.
pub open spec fn advance_ok(s: FlowState, input: InputState, esc: bool, report: SimReport) -> bool {
    let e = spec_edges(s.prev_input, input, s.prev_esc, esc);
    &&& s.screen == Screen::Garage && garage_edit_in_place(e) ==> s.garage_slot < GARAGE_SLOTS
    &&& s.screen == Screen::Match(MatchPhase::RoundResult) && round_advances(s, e) ==> s.round < u32::MAX
    &&& s.screen == Screen::Match(MatchPhase::Fight) && !e.esc ==> (report matches SimReport::FightDecided {
        outcome,
        ..
    } ==> outcome_wf(outcome))
}

/// Whether `advance` accepts `s` with this frame's input and report: the
/// check a caller makes before advancing a state it did not get from `new`
/// and `advance`.
pub fn advance_ok_for(s: &FlowState, input: InputState, esc: bool, report: &SimReport) -> (b: bool)
    ensures
        b == advance_ok(*s, input, esc, *report),
{
    let e = detect_edges(s.prev_input, input, s.prev_esc, esc);
    let slot_ok = match s.screen {
        Screen::Garage => !((e.left || e.right) && !e.up && !e.down) || s.garage_slot < GARAGE_SLOTS,
        _ => true,
    };
    let round_ok = match s.screen {
        Screen::Match(MatchPhase::RoundResult) => !(!e.esc && e.any_key && s.score[0] < MATCH_WIN_POINTS
            && s.score[1] < MATCH_WIN_POINTS) || s.round < u32::MAX,
        _ => true,
    };
    let report_ok = match s.screen {
        Screen::Match(MatchPhase::Fight) => e.esc || match report {
            SimReport::FightDecided { outcome, .. } => match outcome {
                Outcome::RingOut { loser } => *loser <= 1,
                Outcome::StaminaOut { loser } => *loser <= 1,
                Outcome::Simultaneous => true,
            },
            _ => true,
        },
        _ => true,
    };
    slot_ok && round_ok && report_ok
}

/// Cursors and picks within their ranges: the states `new` builds and
/// `advance` keeps.
pub open spec fn flow_wf(s: FlowState) -> bool {
    &&& s.menu_cursor < MAIN_MENU_LEN
    &&& s.settings_cursor < SETTINGS_ROWS
    &&& s.select_cursor < TOP_SELECT_ENTRIES
    &&& s.garage_slot < GARAGE_SLOTS
    &&& s.p1_pick < TOP_SELECT_ENTRIES
    &&& s.ai_pick < PRESET_COUNT
}

impl FlowState {
    /// Fresh flow at the Boot screen; `base_seed` is all the entropy it
    /// ever receives.
    pub fn new(base_seed: u64) -> (f: FlowState)
        ensures
            f == spec_new_flow(base_seed),
    {
        FlowState {
            screen: Screen::Boot,
            frame: 0,
            total_frames: 0,
            menu_cursor: 0,
            settings_cursor: 0,
            select_cursor: 0,
            p1_pick: 0,
            ai_pick: 0,
            parts: DEFAULT_PARTS,
            garage_slot: 0,
            score: [0, 0],
            round: 0,
            match_seed: 0,
            settings: GameSettings::default(),
            quit_requested: false,
            last_outcome: None,
            last_winner: None,
            last_points: 0,
            last_round_end: None,
            base_seed,
            prev_input: InputState::default(),
            prev_esc: false,
        }
    }

    /// Seed of the current round.
    pub fn round_seed(&self) -> (z: u64)
        ensures
            z == spec_mix_seed(self.match_seed, self.round),
    {
        mix_seed(self.match_seed, self.round)
    }

    /// Seed of the AI's launch roll for the current round.
    pub fn ai_roll_seed(&self) -> (z: u64)
        ensures
            z == spec_mix_seed(self.match_seed, self.round) ^ AI_ROLL_SEED_SALT,
    {
        self.round_seed() ^ AI_ROLL_SEED_SALT
    }

    /// Seed of the Fight-phase AI controller for the current round.
    pub fn ai_fight_seed(&self) -> (z: u64)
        ensures
            z == spec_mix_seed(self.match_seed, self.round) ^ AI_FIGHT_SEED_SALT,
    {
        self.round_seed() ^ AI_FIGHT_SEED_SALT
    }

    /// The current garage build, resolved live.
    pub fn garage_build(&self) -> (b: CustomBuild)
        ensures
            b.stats == spec_resolve_stats(self.parts@),
            b.silhouette == spec_build_silhouette(self.parts@),
            b.spin_dir == spec_preset_spin_dir(spec_silhouette_index(b.silhouette)),
            b.accent == spec_preset_accent(spec_silhouette_index(b.silhouette)),
    {
        resolve(self.parts)
    }

    /// A preset-shaped view of TopSelect index `pick`: MY BEY (from the
    /// live garage build) at `MY_BEY_INDEX`, otherwise the roster entry,
    /// out-of-range picks falling back to roster entry 0.
    pub fn preset_view(&self, pick: usize) -> (p: Preset)
        ensures
            pick == MY_BEY_INDEX ==> {
                &&& p.name == MY_BEY_NAME
                &&& p.flavor == MY_BEY_FLAVOR
                &&& p.stats == spec_resolve_stats(self.parts@)
                &&& p.silhouette == spec_build_silhouette(self.parts@)
                &&& p.spin_dir == spec_preset_spin_dir(spec_silhouette_index(p.silhouette))
                &&& p.accent == spec_preset_accent(spec_silhouette_index(p.silhouette))
            },
            pick != MY_BEY_INDEX ==> {
                let i = if pick < PRESET_COUNT { pick as int } else { 0 };
                &&& p.name == spec_preset_name(i)
                &&& p.flavor == spec_preset_flavor(i)
                &&& p.stats == spec_preset_stats(i)
                &&& p.silhouette == spec_preset_silhouette(i)
                &&& p.spin_dir == spec_preset_spin_dir(i)
                &&& p.accent == spec_preset_accent(i)
            },
    {
        if pick == MY_BEY_INDEX {
            let build = self.garage_build();
            Preset {
                name: MY_BEY_NAME,
                flavor: MY_BEY_FLAVOR,
                stats: build.stats,
                spin_dir: build.spin_dir,
                accent: build.accent,
                silhouette: build.silhouette,
            }
        } else {
            let i = if pick < PRESET_COUNT { pick } else { 0 };
            preset(i)
        }
    }

    /// Overwrite the garage build and settings with a decoded save.
    pub fn apply_save(&mut self, s: SaveState)
        ensures
            *final(self) == (FlowState { parts: s.parts, settings: s.settings, ..*old(self) }),
    {
        self.parts = s.parts;
        self.settings = s.settings;
    }

    /// The persistable slice of the flow: garage build and settings.
    pub fn save_snapshot(&self) -> (r: ([u8; 5], GameSettings))
        ensures
            r == (self.parts, self.settings),
    {
        (self.parts, self.settings)
    }

    /// The simulation work this frame needs before `advance` can decide.
    pub fn sim_work(&self, input: InputState, esc: bool) -> (w: SimWork)
        ensures
            w == spec_sim_work(*self, input, esc),
    {
        let e = detect_edges(self.prev_input, input, self.prev_esc, esc);
        if e.esc {
            SimWork::Nothing
        } else {
            match self.screen {
                Screen::Match(MatchPhase::Launch) => SimWork::StepLaunch,
                Screen::Match(MatchPhase::Fight) => SimWork::StepFight,
                _ => SimWork::Nothing,
            }
        }
    }

    fn begin_match(&mut self)
        ensures
            *final(self) == spec_begin_match(*old(self)),
    {
        self.p1_pick = self.select_cursor;
        self.match_seed = mix_seed(self.base_seed, self.total_frames as u32);
        let mut rng = Rng::new(self.match_seed);
        self.ai_pick = (rng.next_u64() % (PRESET_COUNT as u64)) as usize;
        self.score = [0, 0];
        self.round = 0;
        self.last_outcome = None;
        self.last_winner = None;
        self.last_points = 0;
        self.last_round_end = None;
    }

    fn record_round(&mut self, outcome: Outcome, crash_windows: [u16; 2])
        requires
            outcome_wf(outcome),
        ensures
            *final(self) == spec_record_round(*old(self), outcome, crash_windows),
    {
        self.last_outcome = Some(outcome);
        match round_points(Some(outcome), crash_windows) {
            Some((winner, end)) => {
                let pts = end.points();
                if winner == 0 {
                    self.score = [self.score[0].saturating_add(pts), self.score[1]];
                } else {
                    self.score = [self.score[0], self.score[1].saturating_add(pts)];
                }
                self.last_winner = Some(winner);
                self.last_points = pts;
                self.last_round_end = Some(end);
            },
            None => {
                self.last_winner = None;
                self.last_points = 0;
                self.last_round_end = None;
            },
        }
    }

    fn step_garage(&mut self, e: Edges, report: SimReport) -> (r: (Option<Screen>, FlowActions))
        requires
            old(self).screen == Screen::Garage,
            garage_edit_in_place(e) ==> old(self).garage_slot < GARAGE_SLOTS,
        ensures
            (*final(self), r.0, r.1) == spec_screen_step(*old(self), e, report),
    {
        reveal(spec_screen_step);
        if e.up {
            self.garage_slot = cursor_back(self.garage_slot, GARAGE_SLOTS);
        }
        if e.down {
            self.garage_slot = cursor_fwd(self.garage_slot, GARAGE_SLOTS);
        }
        if e.left || e.right {
            let slot = self.garage_slot;
            let width = garage_slot_width(slot);
            let delta: i32 = if e.right { 1 } else { -1 };
            let cur = self.parts[slot] as i32;
            let v = (((cur + delta) % (width as i32) + (width as i32)) % (width as i32)) as u8;
            proof {
                let x = cur + delta;
                let w = width as int;
                assert(v as int == (x % w)) by {
                    if x >= 0 {
                        vstd::arithmetic::div_mod::lemma_mod_bound(x, w);
                        vstd::arithmetic::div_mod::lemma_mod_add_multiples_vanish(x % w, w);
                    } else {
                        assert(x == -1);
                    }
                }
            }
            let ghost before = self.parts;
            self.parts[slot] = v;
            assert(self.parts =~= vstd::array::spec_array_update(before, slot as int, v));
        }
        if e.esc || e.back {
            (Some(Screen::MainMenu), none_actions())
        } else {
            (None, none_actions())
        }
    }

    fn step_match_over(&mut self, e: Edges, report: SimReport) -> (r: (Option<Screen>, FlowActions))
        requires
            old(self).screen == Screen::MatchOver,
        ensures
            (*final(self), r.0, r.1) == spec_screen_step(*old(self), e, report),
    {
        reveal(spec_screen_step);
        if e.any_key || e.esc {
            (Some(Screen::MainMenu), FlowActions { clear_match: true, ..none_actions() })
        } else {
            (None, none_actions())
        }
    }

    fn step_menus(&mut self, e: Edges, report: SimReport) -> (r: (Option<Screen>, FlowActions))
        requires
            old(self).screen == Screen::Boot || old(self).screen == Screen::Title || old(self).screen
                == Screen::MainMenu || old(self).screen == Screen::TopSelect,
        ensures
            (*final(self), r.0, r.1) == spec_screen_step(*old(self), e, report),
    {
        reveal(spec_screen_step);
        let none = none_actions();
        match self.screen {
            Screen::Boot => {
                if self.frame >= BOOT_FRAMES {
                    (Some(Screen::Title), none)
                } else {
                    (None, none)
                }
            },
            Screen::Title => {
                if e.esc {
                    self.quit_requested = true;
                    (None, none)
                } else if e.any_key {
                    (Some(Screen::MainMenu), none)
                } else {
                    (None, none)
                }
            },
            Screen::MainMenu => {
                if e.up {
                    self.menu_cursor = cursor_back(self.menu_cursor, MAIN_MENU_LEN);
                }
                if e.down {
                    self.menu_cursor = cursor_fwd(self.menu_cursor, MAIN_MENU_LEN);
                }
                if e.esc || e.back {
                    self.quit_requested = true;
                    (None, none)
                } else if e.dash {
                    if self.menu_cursor == 0 {
                        (Some(Screen::TopSelect), none)
                    } else if self.menu_cursor == 1 {
                        (Some(Screen::Garage), none)
                    } else if self.menu_cursor == 2 {
                        (Some(Screen::Settings), none)
                    } else if self.menu_cursor == 3 {
                        self.quit_requested = true;
                        (None, none)
                    } else {
                        (None, none)
                    }
                } else {
                    (None, none)
                }
            },
            _ => {
                if e.up || e.left {
                    self.select_cursor = cursor_back(self.select_cursor, TOP_SELECT_ENTRIES);
                }
                if e.down || e.right {
                    self.select_cursor = cursor_fwd(self.select_cursor, TOP_SELECT_ENTRIES);
                }
                if e.esc || e.back {
                    (Some(Screen::MainMenu), none)
                } else if e.dash {
                    self.begin_match();
                    (Some(Screen::Match(MatchPhase::Intro)), FlowActions { begin_round: true, ..none })
                } else {
                    (None, none)
                }
            },
        }
    }

    fn step_settings(&mut self, e: Edges, report: SimReport) -> (r: (Option<Screen>, FlowActions))
        requires
            old(self).screen == Screen::Settings,
        ensures
            (*final(self), r.0, r.1) == spec_screen_step(*old(self), e, report),
    {
        reveal(spec_screen_step);
        if e.up {
            self.settings_cursor = cursor_back(self.settings_cursor, SETTINGS_ROWS);
        }
        if e.down {
            self.settings_cursor = cursor_fwd(self.settings_cursor, SETTINGS_ROWS);
        }
        if e.right {
            adjust_setting(&mut self.settings, self.settings_cursor, 1);
        }
        if e.left {
            adjust_setting(&mut self.settings, self.settings_cursor, -1);
        }
        if e.esc || e.back {
            (Some(Screen::MainMenu), none_actions())
        } else {
            (None, none_actions())
        }
    }

    fn step_match(&mut self, e: Edges, report: SimReport) -> (r: (Option<Screen>, FlowActions))
        requires
            old(self).screen is Match,
            old(self).screen == Screen::Match(MatchPhase::RoundResult) && round_advances(*old(self), e)
                ==> old(self).round < u32::MAX,
            old(self).screen == Screen::Match(MatchPhase::Fight) && !e.esc ==> (report matches SimReport::FightDecided {
                outcome,
                ..
            } ==> outcome_wf(outcome)),
        ensures
            (*final(self), r.0, r.1) == spec_screen_step(*old(self), e, report),
    {
        reveal(spec_screen_step);
        let none = none_actions();
        let clear = FlowActions { clear_match: true, ..none };
        if e.esc {
            return (Some(Screen::MainMenu), clear);
        }
        match self.screen {
            Screen::Match(MatchPhase::Intro) => {
                if self.frame >= INTRO_TOTAL_FRAMES {
                    (Some(Screen::Match(MatchPhase::Launch)), FlowActions { roll_ai_choice: true, ..none })
                } else {
                    (None, none)
                }
            },
            Screen::Match(MatchPhase::Launch) => {
                if let SimReport::LaunchLocked = report {
                    (Some(Screen::Match(MatchPhase::Fight)), FlowActions { spawn_fight: true, ..none })
                } else {
                    (None, FlowActions { refresh_preview: true, ..none })
                }
            },
            Screen::Match(MatchPhase::Fight) => {
                match report {
                    SimReport::FightDecided { outcome, crash_windows } => {
                        self.record_round(outcome, crash_windows);
                        (Some(Screen::Match(MatchPhase::Decided)), none)
                    },
                    SimReport::FightWithoutWorld => (Some(Screen::MainMenu), none),
                    _ => (None, none),
                }
            },
            Screen::Match(MatchPhase::Decided) => {
                if self.frame >= DECIDED_HOLD_FRAMES {
                    (Some(Screen::Match(MatchPhase::RoundResult)), none)
                } else {
                    (None, none)
                }
            },
            _ => {
                if e.any_key {
                    if self.score[0] >= MATCH_WIN_POINTS || self.score[1] >= MATCH_WIN_POINTS {
                        (Some(Screen::MatchOver), none)
                    } else {
                        self.round = self.round + 1;
                        (Some(Screen::Match(MatchPhase::Intro)), FlowActions { begin_round: true, ..none })
                    }
                } else {
                    (None, none)
                }
            },
        }
    }

    /// Advance one flow frame given the simulation report for this frame,
    /// returning the host work to carry out.
    pub fn advance(&mut self, input: InputState, esc: bool, report: SimReport) -> (a: FlowActions)
        requires
            advance_ok(*old(self), input, esc, report),
        ensures
            (*final(self), a) == spec_advance(*old(self), input, esc, report),
    {
        let e = detect_edges(self.prev_input, input, self.prev_esc, esc);
        let (next, actions) = match self.screen {
            Screen::Garage => self.step_garage(e, report),
            Screen::Settings => self.step_settings(e, report),
            Screen::Match(_) => self.step_match(e, report),
            Screen::MatchOver => self.step_match_over(e, report),
            _ => self.step_menus(e, report),
        };
        match next {
            Some(sc) => {
                self.screen = sc;
                self.frame = 0;
            },
            None => {
                self.frame = self.frame.wrapping_add(1);
            },
        }
        self.total_frames = self.total_frames.wrapping_add(1);
        self.prev_input = input;
        self.prev_esc = esc;
        actions
    }
}

/// A fresh flow has every cursor and pick in range, and each frame keeps
/// them there.
pub proof fn law_flow_cursors_stay_in_range(s: FlowState, input: InputState, esc: bool, report: SimReport)
    requires
        flow_wf(s),
        advance_ok(s, input, esc, report),
    ensures
        flow_wf(spec_new_flow(s.base_seed)),
        flow_wf(spec_advance(s, input, esc, report).0),
{
    reveal(spec_screen_step);
    vstd::arithmetic::div_mod::lemma_mod_bound(s.menu_cursor + MAIN_MENU_LEN - 1, MAIN_MENU_LEN as int);
    vstd::arithmetic::div_mod::lemma_mod_bound(s.select_cursor + TOP_SELECT_ENTRIES - 1, TOP_SELECT_ENTRIES as int);
    vstd::arithmetic::div_mod::lemma_mod_bound(s.garage_slot + GARAGE_SLOTS - 1, GARAGE_SLOTS as int);
    vstd::arithmetic::div_mod::lemma_mod_bound(s.settings_cursor + SETTINGS_ROWS - 1, SETTINGS_ROWS as int);
    assert forall|c: usize, n: usize| n > 0 implies #[trigger] spec_cursor_fwd(c, n) < n && spec_cursor_back(c, n) < n by {
        vstd::arithmetic::div_mod::lemma_mod_bound(c + 1, n as int);
        vstd::arithmetic::div_mod::lemma_mod_bound(c + n - 1, n as int);
    }
}

/// Escape during any match phase aborts the match: the flow returns to
/// the main menu with a fresh frame counter and asks the host to tear the
/// match down.
pub proof fn law_escape_aborts_a_match(s: FlowState, input: InputState, report: SimReport)
    requires
        s.screen is Match,
        !s.prev_esc,
    ensures
        spec_advance(s, input, true, report).0.screen == Screen::MainMenu,
        spec_advance(s, input, true, report).0.frame == 0,
        spec_advance(s, input, true, report).1.clear_match,
{
    reveal(spec_screen_step);
}

/// The screen graph: Boot to Title to MainMenu; MainMenu to TopSelect,
/// Garage or Settings, each of which leads back to MainMenu; TopSelect into
/// a match's Intro; Intro, Launch, Fight, Decided, RoundResult in order;
/// RoundResult to the next round's Intro or to MatchOver; MatchOver back to
/// MainMenu; and any match phase may abort to MainMenu.
pub open spec fn spec_screen_edge(from: Screen, to: Screen) -> bool {
    match (from, to) {
        (Screen::Boot, Screen::Title) => true,
        (Screen::Title, Screen::MainMenu) => true,
        (Screen::MainMenu, Screen::TopSelect) => true,
        (Screen::MainMenu, Screen::Garage) => true,
        (Screen::MainMenu, Screen::Settings) => true,
        (Screen::TopSelect, Screen::MainMenu) => true,
        (Screen::Garage, Screen::MainMenu) => true,
        (Screen::Settings, Screen::MainMenu) => true,
        (Screen::TopSelect, Screen::Match(MatchPhase::Intro)) => true,
        (Screen::Match(MatchPhase::Intro), Screen::Match(MatchPhase::Launch)) => true,
        (Screen::Match(MatchPhase::Launch), Screen::Match(MatchPhase::Fight)) => true,
        (Screen::Match(MatchPhase::Fight), Screen::Match(MatchPhase::Decided)) => true,
        (Screen::Match(MatchPhase::Decided), Screen::Match(MatchPhase::RoundResult)) => true,
        (Screen::Match(MatchPhase::RoundResult), Screen::Match(MatchPhase::Intro)) => true,
        (Screen::Match(MatchPhase::RoundResult), Screen::MatchOver) => true,
        (Screen::Match(_), Screen::MainMenu) => true,
        (Screen::MatchOver, Screen::MainMenu) => true,
        _ => false,
    }
}

/// Every screen change a frame makes is an edge of the screen graph.
pub proof fn law_screens_follow_the_graph(s: FlowState, input: InputState, esc: bool, report: SimReport)
    ensures
        spec_advance(s, input, esc, report).0.screen != s.screen ==> spec_screen_edge(
            s.screen,
            spec_advance(s, input, esc, report).0.screen,
        ),
{
    reveal(spec_screen_step);
}

/// Quitting is requested only from the title screen or the main menu.
pub proof fn law_quit_comes_only_from_title_or_main_menu(
    s: FlowState,
    input: InputState,
    esc: bool,
    report: SimReport,
)
    ensures
        !s.quit_requested && spec_advance(s, input, esc, report).0.quit_requested ==> (s.screen == Screen::Title
            || s.screen == Screen::MainMenu),
{
    reveal(spec_screen_step);
}

/// A garage build a save can hold (every part index below 4) and volumes
/// within `0..=10`.
pub open spec fn build_and_volumes_valid(s: FlowState) -> bool {
    &&& forall|i: int| 0 <= i < 5 ==> #[trigger] s.parts[i] < 4
    &&& s.settings.music_vol <= 10
    &&& s.settings.sfx_vol <= 10
}

/// A fresh flow holds a valid build and volumes, and every frame keeps them
/// valid: garage edits wrap within each slot's four parts and volume steps
/// clamp at 0 and 10.
pub proof fn law_build_and_volumes_stay_valid(s: FlowState, input: InputState, esc: bool, report: SimReport)
    requires
        build_and_volumes_valid(s),
        advance_ok(s, input, esc, report),
    ensures
        build_and_volumes_valid(spec_new_flow(s.base_seed)),
        build_and_volumes_valid(spec_advance(s, input, esc, report).0),
{
    reveal(spec_screen_step);
    let e = spec_edges(s.prev_input, input, s.prev_esc, esc);
    let t = spec_advance(s, input, esc, report).0;
    if s.screen == Screen::Garage {
        let g1 = if e.up { spec_cursor_back(s.garage_slot, GARAGE_SLOTS) } else { s.garage_slot };
        let g2 = if e.down { spec_cursor_fwd(g1, GARAGE_SLOTS) } else { g1 };
        if e.left || e.right {
            let delta: int = if e.right { 1 } else { -1 };
            let v = spec_cycle_part(s.parts[g2 as int], GARAGE_PARTS_PER_SLOT as int, delta);
            assert(v < 4) by {
                vstd::arithmetic::div_mod::lemma_mod_bound(s.parts[g2 as int] + delta, 4);
            }
            assert forall|i: int| 0 <= i < 5 implies #[trigger] t.parts[i] < 4 by {
                if i != g2 {
                    assert(t.parts[i] == s.parts[i]);
                }
            }
        }
    }
}

/// In the Garage, a fresh Left or Right press (with no Up/Down press in
/// the same frame) edits only the slot under the cursor: that slot's part
/// index steps by one (Right forward, Left back), wrapping within the
/// slot's four parts; the cursor and every other slot stay as they were. A
/// frame with no fresh Left/Right press changes no part; a fresh Down or Up
/// press moves the cursor one slot forward or back, wrapping over the five.
pub proof fn law_garage_edits_only_the_selected_slot(s: FlowState, input: InputState, esc: bool, report: SimReport)
    requires
        s.screen == Screen::Garage,
        s.garage_slot < GARAGE_SLOTS,
    ensures
        ({
            let t = spec_advance(s, input, esc, report).0;
            let slot = s.garage_slot as int;
            let right = input.dir_x == DIR_RIGHT && s.prev_input.dir_x != DIR_RIGHT;
            let left = input.dir_x == DIR_LEFT && s.prev_input.dir_x != DIR_LEFT;
            let d: int = if right { 1 } else { -1 };
            &&& (right || left) && input.dir_y == s.prev_input.dir_y ==> {
                &&& t.garage_slot == s.garage_slot
                &&& t.parts[slot] as int == (s.parts[slot] as int + d) % 4
                &&& forall|i: int| 0 <= i < 5 && i != slot ==> t.parts[i] == s.parts[i]
            }
            &&& !(right || left) ==> t.parts == s.parts
            &&& input.dir_y == DIR_DOWN && s.prev_input.dir_y != DIR_DOWN ==> t.garage_slot == (slot + 1) % 5
            &&& input.dir_y == DIR_UP && s.prev_input.dir_y != DIR_UP ==> t.garage_slot == (slot + 4) % 5
        }),
{
    reveal(spec_screen_step);
}

/// A quit request, once made, is never withdrawn.
pub proof fn law_quit_request_is_never_cleared(s: FlowState, input: InputState, esc: bool, report: SimReport)
    requires
        s.quit_requested,
    ensures
        spec_advance(s, input, esc, report).0.quit_requested,
{
    reveal(spec_screen_step);
}

/// Every frame counts once in `total_frames` (wrapping); the per-screen
/// counter restarts at 0 exactly when the screen changes and otherwise
/// counts up (wrapping).
pub proof fn law_frame_counters(s: FlowState, input: InputState, esc: bool, report: SimReport)
    ensures
        spec_advance(s, input, esc, report).0.total_frames == (if s.total_frames == u64::MAX {
            0
        } else {
            s.total_frames + 1
        }),
        spec_advance(s, input, esc, report).0.screen != s.screen ==> spec_advance(s, input, esc, report).0.frame == 0,
        spec_advance(s, input, esc, report).0.screen == s.screen ==> spec_advance(s, input, esc, report).0.frame == (
        if s.frame == u32::MAX {
            0
        } else {
            s.frame + 1
        }),
{
    reveal(spec_screen_step);
}

/// On the round-result screen a key press (without Escape) ends the match
/// exactly when a player has reached `MATCH_WIN_POINTS`; otherwise the next
/// round starts with the round counter one higher.
pub proof fn law_match_ends_at_the_winning_score(s: FlowState, input: InputState, report: SimReport)
    requires
        s.screen == Screen::Match(MatchPhase::RoundResult),
        spec_edges(s.prev_input, input, s.prev_esc, false).any_key,
        s.score[0] < MATCH_WIN_POINTS && s.score[1] < MATCH_WIN_POINTS ==> s.round < u32::MAX,
    ensures
        spec_advance(s, input, false, report).0.frame == 0,
        spec_advance(s, input, false, report).0.score == s.score,
        (s.score[0] >= MATCH_WIN_POINTS || s.score[1] >= MATCH_WIN_POINTS) ==> {
            &&& spec_advance(s, input, false, report).0.screen == Screen::MatchOver
            &&& spec_advance(s, input, false, report).0.round == s.round
        },
        !(s.score[0] >= MATCH_WIN_POINTS || s.score[1] >= MATCH_WIN_POINTS) ==> {
            &&& spec_advance(s, input, false, report).0.screen == Screen::Match(MatchPhase::Intro)
            &&& spec_advance(s, input, false, report).0.round == s.round + 1
            &&& spec_advance(s, input, false, report).1.begin_round
        },
{
    reveal(spec_screen_step);
}

/// Scores never go down, except that confirming a top on TopSelect starts
/// a new match at 0–0.
pub proof fn law_score_never_decreases_within_a_match(s: FlowState, input: InputState, esc: bool, report: SimReport)
    requires
        advance_ok(s, input, esc, report),
    ensures
        s.screen != Screen::TopSelect ==> spec_advance(s, input, esc, report).0.score[0] >= s.score[0]
            && spec_advance(s, input, esc, report).0.score[1] >= s.score[1],
        s.screen == Screen::TopSelect && spec_advance(s, input, esc, report).0.screen == Screen::Match(MatchPhase::Intro)
            ==> spec_advance(s, input, esc, report).0.score == [0u8, 0u8],
{
    reveal(spec_screen_step);
}

/// The simulation report only matters on frames for which `sim_work` asked
/// for simulation.
pub proof fn law_report_matters_only_when_simulating(
    s: FlowState,
    input: InputState,
    esc: bool,
    r1: SimReport,
    r2: SimReport,
)
    requires
        spec_sim_work(s, input, esc) == SimWork::Nothing,
    ensures
        spec_advance(s, input, esc, r1) == spec_advance(s, input, esc, r2),
{
    reveal(spec_screen_step);
}

} // verus!
