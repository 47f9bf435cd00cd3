//! Per-frame player intent, the only thing (human or AI) that drives the
//! simulation, and its stable 16-bit replay encoding.
use vstd::prelude::*;

verus! {

/// One frame of intent. `dir_x`/`dir_y` are digital directions in
/// `{-1, 0, 1}`.
#[derive(Clone, Copy, PartialEq, Eq, Debug, Structural)]
pub struct InputState {
    pub dir_x: i8,
    pub dir_y: i8,
    pub dash: bool,
    pub special: bool,
    pub guard: bool,
    pub hop: bool,
    pub carve: bool,
    pub anchor: bool,
}

/// The neutral input: no direction, no button.
pub open spec fn spec_neutral() -> InputState {
    InputState {
        dir_x: 0,
        dir_y: 0,
        dash: false,
        special: false,
        guard: false,
        hop: false,
        carve: false,
        anchor: false,
    }
}

impl Default for InputState {
    fn default() -> (s: InputState)
        ensures
            s == spec_neutral(),
    {
        InputState {
            dir_x: 0,
            dir_y: 0,
            dash: false,
            special: false,
            guard: false,
            hop: false,
            carve: false,
            anchor: false,
        }
    }
}

/// Host input sampled for one 60 Hz application tick: the held state plus
/// pressed/released latches, and the out-of-band Escape key.
#[derive(Clone, Copy, PartialEq, Eq, Debug, Structural)]
pub struct FrameInput {
    pub held: InputState,
    pub pressed: InputState,
    pub released: InputState,
    pub escape_held: bool,
    pub escape_pressed: bool,
    pub escape_released: bool,
    pub focused: bool,
}

impl Default for FrameInput {
    fn default() -> (f: FrameInput)
        ensures
            f.held == spec_neutral(),
            f.pressed == spec_neutral(),
            f.released == spec_neutral(),
            !f.escape_held && !f.escape_pressed && !f.escape_released,
            f.focused,
    {
        FrameInput {
            held: InputState::default(),
            pressed: InputState::default(),
            released: InputState::default(),
            escape_held: false,
            escape_pressed: false,
            escape_released: false,
            focused: true,
        }
    }
}

/// The input a simulation substep sees: held directions and continuous
/// actions stay, one-shot actions (dash, special, hop) only reach the first
/// substep, where a press latched between polls also counts.
pub open spec fn spec_for_substep(f: FrameInput, first: bool) -> InputState {
    InputState {
        dash: if first { f.held.dash || f.pressed.dash } else { false },
        special: if first { f.held.special || f.pressed.special } else { false },
        hop: if first { f.held.hop || f.pressed.hop } else { false },
        ..f.held
    }
}

impl FrameInput {
    /// Constructor for callers that sample only held state.
    pub fn from_held(held: InputState, escape_held: bool) -> (f: FrameInput)
        ensures
            f.held == held,
            f.pressed == spec_neutral(),
            f.released == spec_neutral(),
            f.escape_held == escape_held,
            !f.escape_pressed && !f.escape_released,
            f.focused,
    {
        FrameInput {
            held,
            pressed: InputState::default(),
            released: InputState::default(),
            escape_held,
            escape_pressed: false,
            escape_released: false,
            focused: true,
        }
    }

    /// Input delivered to a simulation substep.
    pub fn for_substep(self, first: bool) -> (s: InputState)
        ensures
            s == spec_for_substep(self, first),
    {
        let mut input = self.held;
        if first {
            input.dash = input.dash || self.pressed.dash;
            input.special = input.special || self.pressed.special;
            input.hop = input.hop || self.pressed.hop;
        } else {
            input.dash = false;
            input.special = false;
            input.hop = false;
        }
        input
    }
}

/// Two-bit direction code: `0 = -1`, `1 = 0`, `2 = +1`; anything else packs
/// as neutral.
pub open spec fn spec_dir_to_bits(d: i8) -> u16 {
    if d == -1 {
        0u16
    } else if d == 1 {
        2u16
    } else {
        1u16
    }
}

/// Decode a two-bit direction code; `1` and the unused `3` read as neutral.
pub open spec fn spec_bits_to_dir(bits: u16) -> i8 {
    let b = bits & 3u16;
    if b == 0 {
        -1i8
    } else if b == 2 {
        1i8
    } else {
        0i8
    }
}

/// `bit` when `flag` is set, else zero.
pub open spec fn flag_bit(flag: bool, bit: u16) -> u16 {
    if flag {
        bit
    } else {
        0u16
    }
}

/// Packed layout: bits 0-1 dx, 2-3 dy, 4 dash, 5 special, 6 guard, 7 hop,
/// 8 carve, 9 anchor, 10-15 zero.
pub open spec fn spec_pack(s: InputState) -> u16 {
    spec_dir_to_bits(s.dir_x) | (spec_dir_to_bits(s.dir_y) << 2u16) | flag_bit(s.dash, 16u16)
        | flag_bit(s.special, 32u16) | flag_bit(s.guard, 64u16) | flag_bit(s.hop, 128u16)
        | flag_bit(s.carve, 256u16) | flag_bit(s.anchor, 512u16)
}

pub open spec fn spec_unpack(bits: u16) -> InputState {
    InputState {
        dir_x: spec_bits_to_dir(bits),
        dir_y: spec_bits_to_dir(bits >> 2u16),
        dash: bits & 16u16 != 0,
        special: bits & 32u16 != 0,
        guard: bits & 64u16 != 0,
        hop: bits & 128u16 != 0,
        carve: bits & 256u16 != 0,
        anchor: bits & 512u16 != 0,
    }
}

/// Both digital directions are in `{-1, 0, 1}`.
pub open spec fn dirs_valid(s: InputState) -> bool {
    -1 <= s.dir_x <= 1 && -1 <= s.dir_y <= 1
}

fn dir_to_bits(d: i8) -> (b: u16)
    ensures
        b == spec_dir_to_bits(d),
{
    if d == -1 {
        0
    } else if d == 1 {
        2
    } else {
        1
    }
}

fn bits_to_dir(bits: u16) -> (d: i8)
    ensures
        d == spec_bits_to_dir(bits),
{
    let b = bits & 3u16;
    if b == 0 {
        -1
    } else if b == 2 {
        1
    } else {
        0
    }
}

impl InputState {
    pub fn pack(self) -> (v: u16)
        ensures
            v == spec_pack(self),
            v < 1024,
    {
        let dx = dir_to_bits(self.dir_x);
        let dy = dir_to_bits(self.dir_y);
        let f4: u16 = if self.dash { 16 } else { 0 };
        let f5: u16 = if self.special { 32 } else { 0 };
        let f6: u16 = if self.guard { 64 } else { 0 };
        let f7: u16 = if self.hop { 128 } else { 0 };
        let f8: u16 = if self.carve { 256 } else { 0 };
        let f9: u16 = if self.anchor { 512 } else { 0 };
        let v: u16 = dx | (dy << 2u16) | f4 | f5 | f6 | f7 | f8 | f9;
        assert(dx <= 2 && dy <= 2 && f4 <= 16 && f5 <= 32 && f6 <= 64 && f7 <= 128 && f8 <= 256 && f9
            <= 512 ==> (dx | (dy << 2u16) | f4 | f5 | f6 | f7 | f8 | f9) < 1024) by (bit_vector);
        v
    }

    pub fn unpack(bits: u16) -> (s: InputState)
        ensures
            s == spec_unpack(bits),
    {
        InputState {
            dir_x: bits_to_dir(bits),
            dir_y: bits_to_dir(bits >> 2u16),
            dash: bits & 16u16 != 0,
            special: bits & 32u16 != 0,
            guard: bits & 64u16 != 0,
            hop: bits & 128u16 != 0,
            carve: bits & 256u16 != 0,
            anchor: bits & 512u16 != 0,
        }
    }
}

/// Unpacking a packed input gives the input back, for every input whose
/// directions are digital.
pub proof fn law_unpack_pack_roundtrip(s: InputState)
    requires
        dirs_valid(s),
    ensures
        spec_unpack(spec_pack(s)) == s,
{
    let dx = spec_dir_to_bits(s.dir_x);
    let dy = spec_dir_to_bits(s.dir_y);
    let f4 = flag_bit(s.dash, 16u16);
    let f5 = flag_bit(s.special, 32u16);
    let f6 = flag_bit(s.guard, 64u16);
    let f7 = flag_bit(s.hop, 128u16);
    let f8 = flag_bit(s.carve, 256u16);
    let f9 = flag_bit(s.anchor, 512u16);
    let v = spec_pack(s);
    assert(v == dx | (dy << 2u16) | f4 | f5 | f6 | f7 | f8 | f9);
    assert(dx <= 2 && dy <= 2 && (f4 == 0 || f4 == 16u16) && (f5 == 0 || f5 == 32u16) && (f6 == 0 || f6
        == 64u16) && (f7 == 0 || f7 == 128u16) && (f8 == 0 || f8 == 256u16) && (f9 == 0 || f9 == 512u16)
        ==> {
        let w = dx | (dy << 2u16) | f4 | f5 | f6 | f7 | f8 | f9;
        &&& w & 3u16 == dx
        &&& (w >> 2u16) & 3u16 == dy
        &&& (w & 16u16 != 0) == (f4 != 0)
        &&& (w & 32u16 != 0) == (f5 != 0)
        &&& (w & 64u16 != 0) == (f6 != 0)
        &&& (w & 128u16 != 0) == (f7 != 0)
        &&& (w & 256u16 != 0) == (f8 != 0)
        &&& (w & 512u16 != 0) == (f9 != 0)
    }) by (bit_vector);
}

/// The reserved high bits 10..15 never influence the unpacked input.
pub proof fn law_unpack_ignores_reserved_bits(bits: u16)
    ensures
        spec_unpack(bits) == spec_unpack(bits & 0x3FFu16),
{
    assert({
        let m = bits & 0x3FFu16;
        &&& bits & 3u16 == m & 3u16
        &&& (bits >> 2u16) & 3u16 == (m >> 2u16) & 3u16
        &&& bits & 16u16 == m & 16u16
        &&& bits & 32u16 == m & 32u16
        &&& bits & 64u16 == m & 64u16
        &&& bits & 128u16 == m & 128u16
        &&& bits & 256u16 == m & 256u16
        &&& bits & 512u16 == m & 512u16
    }) by (bit_vector);
}

} // verus!
