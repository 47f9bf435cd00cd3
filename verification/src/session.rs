//! The game aggregate: the flow state plus exactly-once delivery of its
//! outputs (screen transitions and the quit request).
use vstd::prelude::*;
use crate::combat::RoundEnd;
use crate::flow::{
    FlowActions,
    FlowState,
    GameSettings,
    MatchPhase,
    Screen,
    ShakeLevel,
    SimReport,
    WindowScale,
    advance_ok,
    spec_advance,
    spec_new_flow,
};
use crate::hash::{Hasher64, OFFSET_BASIS, le_bytes_u16, le_bytes_u32, le_bytes_u64, spec_fold};
use crate::input::{InputState, spec_pack};
use crate::minigame::Difficulty;
use crate::physics::Outcome;
use crate::save::SaveState;

verus! {

/// A 64-bit digest identifying a session state.
#[derive(Clone, Copy, Debug, PartialEq, Eq, Structural)]
pub struct SessionDigest(pub u64);

/// What one frame of a session delivers: the screen transition it made, if
/// any, whether quitting is requested (reported on one frame only), and the
/// host work the flow asks for.
#[derive(Clone, Copy, Debug, PartialEq, Eq)]
pub struct SessionOutput {
    pub transition: Option<(Screen, Screen)>,
    pub quit_requested: bool,
    pub actions: FlowActions,
}

/// One byte per screen, in declaration order (match phases in order after
/// Settings).
pub open spec fn spec_screen_code(s: Screen) -> u8 {
    match s {
        Screen::Boot => 0,
        Screen::Title => 1,
        Screen::MainMenu => 2,
        Screen::TopSelect => 3,
        Screen::Garage => 4,
        Screen::Settings => 5,
        Screen::Match(MatchPhase::Intro) => 6,
        Screen::Match(MatchPhase::Launch) => 7,
        Screen::Match(MatchPhase::Fight) => 8,
        Screen::Match(MatchPhase::Decided) => 9,
        Screen::Match(MatchPhase::RoundResult) => 10,
        Screen::MatchOver => 11,
    }
}

fn screen_code(s: Screen) -> (c: u8)
    ensures
        c == spec_screen_code(s),
{
    match s {
        Screen::Boot => 0,
        Screen::Title => 1,
        Screen::MainMenu => 2,
        Screen::TopSelect => 3,
        Screen::Garage => 4,
        Screen::Settings => 5,
        Screen::Match(MatchPhase::Intro) => 6,
        Screen::Match(MatchPhase::Launch) => 7,
        Screen::Match(MatchPhase::Fight) => 8,
        Screen::Match(MatchPhase::Decided) => 9,
        Screen::Match(MatchPhase::RoundResult) => 10,
        Screen::MatchOver => 11,
    }
}

/// The setting enums as bytes, in declaration order.
pub open spec fn spec_settings_codes(g: GameSettings) -> (u8, u8, u8) {
    (
        match g.shake {
            ShakeLevel::Off => 0u8,
            ShakeLevel::Low => 1u8,
            ShakeLevel::Normal => 2u8,
            ShakeLevel::High => 3u8,
        },
        match g.difficulty {
            Difficulty::Easy => 0u8,
            Difficulty::Normal => 1u8,
            Difficulty::Hard => 2u8,
            Difficulty::Ace => 3u8,
        },
        match g.window_scale {
            WindowScale::X1 => 0u8,
            WindowScale::X1_5 => 1u8,
            WindowScale::X2 => 2u8,
            WindowScale::Fullscreen => 3u8,
        },
    )
}

fn settings_codes(g: GameSettings) -> (c: (u8, u8, u8))
    ensures
        c == spec_settings_codes(g),
{
    let shake: u8 = match g.shake {
        ShakeLevel::Off => 0,
        ShakeLevel::Low => 1,
        ShakeLevel::Normal => 2,
        ShakeLevel::High => 3,
    };
    let difficulty: u8 = match g.difficulty {
        Difficulty::Easy => 0,
        Difficulty::Normal => 1,
        Difficulty::Hard => 2,
        Difficulty::Ace => 3,
    };
    let window: u8 = match g.window_scale {
        WindowScale::X1 => 0,
        WindowScale::X1_5 => 1,
        WindowScale::X2 => 2,
        WindowScale::Fullscreen => 3,
    };
    (shake, difficulty, window)
}

/// The last round's result as bytes: outcome tag and loser, winner tag and
/// winner, round-end code (0 for none, else 1 + declaration index).
pub open spec fn spec_result_codes(f: FlowState) -> (u8, u8, u8, u8, u8) {
    let (otag, loser) = match f.last_outcome {
        None => (0u8, 0u8),
        Some(Outcome::RingOut { loser }) => (1u8, loser),
        Some(Outcome::StaminaOut { loser }) => (2u8, loser),
        Some(Outcome::Simultaneous) => (3u8, 0u8),
    };
    let (wtag, winner) = match f.last_winner {
        None => (0u8, 0u8),
        Some(w) => (1u8, w),
    };
    let end = match f.last_round_end {
        None => 0u8,
        Some(RoundEnd::CrashOut) => 1u8,
        Some(RoundEnd::Over) => 2u8,
        Some(RoundEnd::Survivor) => 3u8,
        Some(RoundEnd::Draw) => 4u8,
    };
    (otag, loser, wtag, winner, end)
}

fn result_codes(f: &FlowState) -> (c: (u8, u8, u8, u8, u8))
    ensures
        c == spec_result_codes(*f),
{
    let (otag, loser): (u8, u8) = match f.last_outcome {
        None => (0, 0),
        Some(Outcome::RingOut { loser }) => (1, loser),
        Some(Outcome::StaminaOut { loser }) => (2, loser),
        Some(Outcome::Simultaneous) => (3, 0),
    };
    let (wtag, winner): (u8, u8) = match f.last_winner {
        None => (0, 0),
        Some(w) => (1, w),
    };
    let end: u8 = match f.last_round_end {
        None => 0,
        Some(RoundEnd::CrashOut) => 1,
        Some(RoundEnd::Over) => 2,
        Some(RoundEnd::Survivor) => 3,
        Some(RoundEnd::Draw) => 4,
    };
    (otag, loser, wtag, winner, end)
}

/// A bool as one byte.
pub open spec fn spec_bool_byte(b: bool) -> Seq<u8> {
    seq![if b { 1u8 } else { 0u8 }]
}

/// FNV-1a over the session's fields written in order: screen, frame
/// counters, cursors and picks (each `usize` as a `u64`), the garage parts,
/// score, round, match seed, settings, quit flag, last round's result, base
/// seed, the previous input packed, the previous Escape, and whether the
/// quit request was delivered.
pub open spec fn spec_session_digest(f: FlowState, delivered: bool) -> u64 {
    let (shake, difficulty, window) = spec_settings_codes(f.settings);
    let (otag, loser, wtag, winner, end) = spec_result_codes(f);
    let h = spec_fold(OFFSET_BASIS, seq![spec_screen_code(f.screen)]);
    let h = spec_fold(h, le_bytes_u32(f.frame));
    let h = spec_fold(h, le_bytes_u64(f.total_frames));
    let h = spec_fold(h, le_bytes_u64(f.menu_cursor as u64));
    let h = spec_fold(h, le_bytes_u64(f.settings_cursor as u64));
    let h = spec_fold(h, le_bytes_u64(f.select_cursor as u64));
    let h = spec_fold(h, le_bytes_u64(f.p1_pick as u64));
    let h = spec_fold(h, le_bytes_u64(f.ai_pick as u64));
    let h = spec_fold(h, f.parts@);
    let h = spec_fold(h, le_bytes_u64(f.garage_slot as u64));
    let h = spec_fold(h, f.score@);
    let h = spec_fold(h, le_bytes_u32(f.round));
    let h = spec_fold(h, le_bytes_u64(f.match_seed));
    let h = spec_fold(h, seq![f.settings.music_vol, f.settings.sfx_vol, shake, difficulty, window]);
    let h = spec_fold(h, spec_bool_byte(f.settings.colorblind));
    let h = spec_fold(h, spec_bool_byte(f.quit_requested));
    let h = spec_fold(h, seq![otag, loser, wtag, winner, f.last_points, end]);
    let h = spec_fold(h, le_bytes_u64(f.base_seed));
    let h = spec_fold(h, le_bytes_u16(spec_pack(f.prev_input)));
    let h = spec_fold(h, spec_bool_byte(f.prev_esc));
    spec_fold(h, spec_bool_byte(delivered))
}

/// The flow state and whether the quit request has been handed out.
pub struct GameSession {
    state: FlowState,
    quit_delivered: bool,
}

impl GameSession {
    pub closed spec fn flow(&self) -> FlowState {
        self.state
    }

    pub closed spec fn quit_delivered(&self) -> bool {
        self.quit_delivered
    }

    /// A session at Boot with a save's garage build and settings applied.
    pub fn new(seed: u64, save: SaveState) -> (g: GameSession)
        ensures
            g.flow() == (FlowState { parts: save.parts, settings: save.settings, ..spec_new_flow(seed) }),
            !g.quit_delivered(),
    {
        let mut state = FlowState::new(seed);
        state.apply_save(save);
        GameSession { state, quit_delivered: false }
    }

    /// Advance one frame; the quit request is delivered on the first frame
    /// it is set and never again.
    pub fn advance(&mut self, input: InputState, esc: bool, report: SimReport) -> (out: SessionOutput)
        requires
            advance_ok(old(self).flow(), input, esc, report),
        ensures
            (final(self).flow(), out.actions) == spec_advance(old(self).flow(), input, esc, report),
            out.transition == (if old(self).flow().screen != final(self).flow().screen {
                Some((old(self).flow().screen, final(self).flow().screen))
            } else {
                None
            }),
            (final(self).flow(), final(self).quit_delivered(), out.quit_requested) == spec_session_step(
                old(self).flow(),
                old(self).quit_delivered(),
                input,
                esc,
                report,
            ),
    {
        let from = self.state.screen;
        let actions = self.state.advance(input, esc, report);
        let to = self.state.screen;
        let quit_requested = self.state.quit_requested && !self.quit_delivered;
        self.quit_delivered = self.quit_delivered || quit_requested;
        let transition = if from != to {
            Some((from, to))
        } else {
            None
        };
        SessionOutput { transition, quit_requested, actions }
    }

    /// Read-only view of the flow state, for presentation.
    pub fn presentation(&self) -> (f: &FlowState)
        ensures
            *f == self.flow(),
    {
        &self.state
    }

    /// The persistable slice: garage build and settings.
    /// A digest of the whole session state, for determinism checks.
    pub fn digest(&self) -> (d: SessionDigest)
        ensures
            d.0 == spec_session_digest(self.flow(), self.quit_delivered()),
    {
        let f = &self.state;
        let (shake, difficulty, window) = settings_codes(f.settings);
        let (otag, loser, wtag, winner, end) = result_codes(f);
        let mut h = Hasher64::default();
        h.write_u8(screen_code(f.screen));
        h.write_u32(f.frame);
        h.write_u64(f.total_frames);
        h.write_u64(f.menu_cursor as u64);
        h.write_u64(f.settings_cursor as u64);
        h.write_u64(f.select_cursor as u64);
        h.write_u64(f.p1_pick as u64);
        h.write_u64(f.ai_pick as u64);
        h.write_bytes(&f.parts);
        h.write_u64(f.garage_slot as u64);
        h.write_bytes(&f.score);
        h.write_u32(f.round);
        h.write_u64(f.match_seed);
        let settings_bytes: [u8; 5] = [f.settings.music_vol, f.settings.sfx_vol, shake, difficulty, window];
        h.write_bytes(&settings_bytes);
        h.write_bool(f.settings.colorblind);
        h.write_bool(f.quit_requested);
        let result_bytes: [u8; 6] = [otag, loser, wtag, winner, f.last_points, end];
        h.write_bytes(&result_bytes);
        h.write_u64(f.base_seed);
        h.write_u16(f.prev_input.pack());
        h.write_bool(f.prev_esc);
        h.write_bool(self.quit_delivered);
        proof {
            assert(settings_bytes@ =~= seq![f.settings.music_vol, f.settings.sfx_vol, shake, difficulty, window]);
            assert(result_bytes@ =~= seq![otag, loser, wtag, winner, f.last_points, end]);
        }
        SessionDigest(h.finish())
    }

    pub fn save_snapshot(&self) -> (r: ([u8; 5], GameSettings))
        ensures
            r == (self.flow().parts, self.flow().settings),
    {
        self.state.save_snapshot()
    }
}

/// One session frame: the next flow state, whether the quit request has
/// now been delivered, and whether this frame delivers it.
pub open spec fn spec_session_step(
    s: FlowState,
    delivered: bool,
    input: InputState,
    esc: bool,
    report: SimReport,
) -> (FlowState, bool, bool) {
    let next = spec_advance(s, input, esc, report).0;
    let q = next.quit_requested && !delivered;
    (next, delivered || q, q)
}

/// The quit request is delivered exactly once: the first frame on which
/// the flow requests quitting reports it, and no two frames both report it.
pub proof fn law_quit_is_delivered_exactly_once(
    s: FlowState,
    delivered: bool,
    i1: InputState,
    e1: bool,
    r1: SimReport,
    i2: InputState,
    e2: bool,
    r2: SimReport,
)
    ensures
        ({
            let (s1, d1, q1) = spec_session_step(s, delivered, i1, e1, r1);
            let (s2, d2, q2) = spec_session_step(s1, d1, i2, e2, r2);
            &&& !(q1 && q2)
            &&& delivered ==> !q1 && !q2
            &&& !delivered && s1.quit_requested ==> q1
            &&& q1 ==> d2
        }),
{
}

} // verus!
