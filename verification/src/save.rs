//! Save format, exact byte layout:
//!
//! ```text
//! offset  size  field
//! 0       4     magic b"FSPN"
//! 4       1     version (2)
//! 5       5     garage part indices
//! 10      7     settings: music_vol, sfx_vol, shake, difficulty,
//!               window_scale, colorblind, reserved zero byte
//! 17      1     XOR of every byte at offsets 0..17
//! 18      4     CRC32 of bytes 0..18, little endian
//! ```
//!
//! Decoding never panics and never partially applies: the whole blob is
//! validated before any field is read out.
use vstd::prelude::*;
use crate::flow::{GameSettings, ShakeLevel, WindowScale, spec_default_settings};
use crate::minigame::Difficulty;

verus! {

/// Current save format version.
pub const SAVE_VERSION: u8 = 2;

/// Total encoded length.
pub const SAVE_LEN: usize = 22;

const PARTS_LEN: usize = 5;

/// Byte offsets of the layout: version, parts, settings, XOR checksum, CRC.
pub const OFF_VERSION: usize = 4;
pub const OFF_PARTS: usize = 5;
pub const OFF_SETTINGS: usize = 10;
pub const OFF_CHECKSUM: usize = 17;
pub const OFF_CRC32: usize = 18;

/// Reflected CRC-32 polynomial.
pub const CRC32_POLY: u32 = 0xEDB8_8320;

/// The magic bytes `b"FSPN"`.
pub open spec fn spec_magic() -> Seq<u8> {
    seq![0x46u8, 0x53u8, 0x50u8, 0x4Eu8]
}

/// One bit step of the reflected CRC-32 register.
pub open spec fn spec_crc_bit(c: u32) -> u32 {
    if c & 1u32 == 1u32 {
        (c >> 1u32) ^ CRC32_POLY
    } else {
        c >> 1u32
    }
}

/// Eight bit steps: the register update for one byte already xored in.
pub open spec fn spec_crc_8bits(c: u32) -> u32 {
    spec_crc_bit(spec_crc_bit(spec_crc_bit(spec_crc_bit(spec_crc_bit(spec_crc_bit(spec_crc_bit(spec_crc_bit(c))))))))
}

/// CRC register after feeding `bytes` (no final inversion).
pub open spec fn spec_crc_register(init: u32, bytes: Seq<u8>) -> u32
    decreases bytes.len(),
{
    if bytes.len() == 0 {
        init
    } else {
        spec_crc_8bits(spec_crc_register(init, bytes.drop_last()) ^ (bytes.last() as u32))
    }
}

/// CRC-32/ISO-HDLC of `bytes`.
pub open spec fn spec_crc32(bytes: Seq<u8>) -> u32 {
    !spec_crc_register(0xFFFF_FFFFu32, bytes)
}

/// XOR of every byte.
pub open spec fn spec_xor(bytes: Seq<u8>) -> u8
    decreases bytes.len(),
{
    if bytes.len() == 0 {
        0u8
    } else {
        spec_xor(bytes.drop_last()) ^ bytes.last()
    }
}

/// Little-endian `u32` from four bytes.
pub open spec fn spec_u32_le(b0: u8, b1: u8, b2: u8, b3: u8) -> u32 {
    (b0 as u32) | ((b1 as u32) << 8u32) | ((b2 as u32) << 16u32) | ((b3 as u32) << 24u32)
}

/// Result of classifying the bytes a save adapter read.
#[derive(Clone, Copy, Debug, PartialEq)]
pub enum SaveLoadOutcome {
    Loaded(SaveState),
    Missing,
    Corrupt,
    Incompatible { version: u8 },
}

/// Decoded save contents. The default is exactly the "no save / bad save"
/// fallback.
#[derive(Clone, Copy, Debug, PartialEq)]
pub struct SaveState {
    pub parts: [u8; 5],
    pub settings: GameSettings,
}

/// All-zero parts and default settings.
pub open spec fn spec_default_state() -> SaveState {
    SaveState { parts: [0u8, 0u8, 0u8, 0u8, 0u8], settings: spec_default_settings() }
}

impl Default for SaveState {
    fn default() -> (s: SaveState)
        ensures
            s == spec_default_state(),
    {
        SaveState { parts: [0, 0, 0, 0, 0], settings: GameSettings::default() }
    }
}

pub open spec fn spec_state_or_default(o: SaveLoadOutcome) -> SaveState {
    match o {
        SaveLoadOutcome::Loaded(s) => s,
        _ => spec_default_state(),
    }
}

impl SaveLoadOutcome {
    pub fn state_or_default(self) -> (s: SaveState)
        ensures
            s == spec_state_or_default(self),
    {
        match self {
            SaveLoadOutcome::Loaded(state) => state,
            _ => SaveState::default(),
        }
    }
}

pub open spec fn spec_shake_byte(s: ShakeLevel) -> u8 {
    match s {
        ShakeLevel::Off => 0,
        ShakeLevel::Low => 1,
        ShakeLevel::Normal => 2,
        ShakeLevel::High => 3,
    }
}

pub open spec fn spec_shake_from_byte(b: u8) -> Option<ShakeLevel> {
    if b == 0 {
        Some(ShakeLevel::Off)
    } else if b == 1 {
        Some(ShakeLevel::Low)
    } else if b == 2 {
        Some(ShakeLevel::Normal)
    } else if b == 3 {
        Some(ShakeLevel::High)
    } else {
        None
    }
}

pub open spec fn spec_difficulty_byte(d: Difficulty) -> u8 {
    match d {
        Difficulty::Easy => 0,
        Difficulty::Normal => 1,
        Difficulty::Hard => 2,
        Difficulty::Ace => 3,
    }
}

pub open spec fn spec_difficulty_from_byte(b: u8) -> Option<Difficulty> {
    if b == 0 {
        Some(Difficulty::Easy)
    } else if b == 1 {
        Some(Difficulty::Normal)
    } else if b == 2 {
        Some(Difficulty::Hard)
    } else if b == 3 {
        Some(Difficulty::Ace)
    } else {
        None
    }
}

pub open spec fn spec_window_scale_byte(w: WindowScale) -> u8 {
    match w {
        WindowScale::X1 => 0,
        WindowScale::X1_5 => 1,
        WindowScale::X2 => 2,
        WindowScale::Fullscreen => 3,
    }
}

pub open spec fn spec_window_scale_from_byte(b: u8) -> Option<WindowScale> {
    if b == 0 {
        Some(WindowScale::X1)
    } else if b == 1 {
        Some(WindowScale::X1_5)
    } else if b == 2 {
        Some(WindowScale::X2)
    } else if b == 3 {
        Some(WindowScale::Fullscreen)
    } else {
        None
    }
}

/// The 17 bytes the XOR checksum covers.
pub open spec fn spec_body(parts: [u8; 5], s: GameSettings) -> Seq<u8> {
    spec_magic() + seq![SAVE_VERSION] + parts@ + seq![
        s.music_vol,
        s.sfx_vol,
        spec_shake_byte(s.shake),
        spec_difficulty_byte(s.difficulty),
        spec_window_scale_byte(s.window_scale),
        if s.colorblind { 1u8 } else { 0u8 },
        0u8,
    ]
}

/// The full 22-byte encoding.
pub open spec fn spec_encode(parts: [u8; 5], s: GameSettings) -> Seq<u8> {
    let body = spec_body(parts, s);
    let checked = body.push(spec_xor(body));
    checked + crate::hash::le_bytes_u32(spec_crc32(checked))
}

/// Classification of a byte blob, check by check.
pub open spec fn spec_decode_outcome(b: Seq<u8>) -> SaveLoadOutcome {
    if b.len() == 0 {
        SaveLoadOutcome::Missing
    } else if b.len() > 4 && b.take(4) == spec_magic() && b[4] != SAVE_VERSION {
        SaveLoadOutcome::Incompatible { version: b[4] }
    } else if b.len() != 22 {
        SaveLoadOutcome::Corrupt
    } else if b.take(4) != spec_magic() {
        SaveLoadOutcome::Corrupt
    } else if spec_xor(b.take(17)) != b[17] {
        SaveLoadOutcome::Corrupt
    } else if spec_crc32(b.take(18)) != spec_u32_le(b[18], b[19], b[20], b[21]) {
        SaveLoadOutcome::Corrupt
    } else if b[16] != 0 {
        SaveLoadOutcome::Corrupt
    } else if b[5] >= 4 || b[6] >= 4 || b[7] >= 4 || b[8] >= 4 || b[9] >= 4 {
        SaveLoadOutcome::Corrupt
    } else if spec_shake_from_byte(b[12]) is None || spec_difficulty_from_byte(b[13]) is None
        || spec_window_scale_from_byte(b[14]) is None {
        SaveLoadOutcome::Corrupt
    } else if b[15] > 1 {
        SaveLoadOutcome::Corrupt
    } else if b[10] > 10 || b[11] > 10 {
        SaveLoadOutcome::Corrupt
    } else {
        SaveLoadOutcome::Loaded(
            SaveState {
                parts: [b[5], b[6], b[7], b[8], b[9]],
                settings: GameSettings {
                    music_vol: b[10],
                    sfx_vol: b[11],
                    shake: spec_shake_from_byte(b[12]).unwrap(),
                    difficulty: spec_difficulty_from_byte(b[13]).unwrap(),
                    window_scale: spec_window_scale_from_byte(b[14]).unwrap(),
                    colorblind: b[15] == 1,
                },
            },
        )
    }
}

/// The decoded state of a blob: the loaded state, or the default.
pub open spec fn spec_decode(b: Seq<u8>) -> SaveState {
    spec_state_or_default(spec_decode_outcome(b))
}

/// A state a valid save can hold: part indices below 4, volumes at most 10.
pub open spec fn state_valid(parts: [u8; 5], s: GameSettings) -> bool {
    &&& forall|i: int| 0 <= i < 5 ==> #[trigger] parts[i] < 4
    &&& s.music_vol <= 10
    &&& s.sfx_vol <= 10
}

fn shake_to_byte(s: ShakeLevel) -> (b: u8)
    ensures
        b == spec_shake_byte(s),
{
    match s {
        ShakeLevel::Off => 0,
        ShakeLevel::Low => 1,
        ShakeLevel::Normal => 2,
        ShakeLevel::High => 3,
    }
}

fn shake_from_byte(b: u8) -> (r: Option<ShakeLevel>)
    ensures
        r == spec_shake_from_byte(b),
{
    if b == 0 {
        Some(ShakeLevel::Off)
    } else if b == 1 {
        Some(ShakeLevel::Low)
    } else if b == 2 {
        Some(ShakeLevel::Normal)
    } else if b == 3 {
        Some(ShakeLevel::High)
    } else {
        None
    }
}

fn difficulty_to_byte(d: Difficulty) -> (b: u8)
    ensures
        b == spec_difficulty_byte(d),
{
    match d {
        Difficulty::Easy => 0,
        Difficulty::Normal => 1,
        Difficulty::Hard => 2,
        Difficulty::Ace => 3,
    }
}

fn difficulty_from_byte(b: u8) -> (r: Option<Difficulty>)
    ensures
        r == spec_difficulty_from_byte(b),
{
    if b == 0 {
        Some(Difficulty::Easy)
    } else if b == 1 {
        Some(Difficulty::Normal)
    } else if b == 2 {
        Some(Difficulty::Hard)
    } else if b == 3 {
        Some(Difficulty::Ace)
    } else {
        None
    }
}

fn window_scale_to_byte(w: WindowScale) -> (b: u8)
    ensures
        b == spec_window_scale_byte(w),
{
    match w {
        WindowScale::X1 => 0,
        WindowScale::X1_5 => 1,
        WindowScale::X2 => 2,
        WindowScale::Fullscreen => 3,
    }
}

fn window_scale_from_byte(b: u8) -> (r: Option<WindowScale>)
    ensures
        r == spec_window_scale_from_byte(b),
{
    if b == 0 {
        Some(WindowScale::X1)
    } else if b == 1 {
        Some(WindowScale::X1_5)
    } else if b == 2 {
        Some(WindowScale::X2)
    } else if b == 3 {
        Some(WindowScale::Fullscreen)
    } else {
        None
    }
}

/// XOR of the first `n` bytes of `bytes`.
fn xor_prefix(bytes: &[u8], n: usize) -> (x: u8)
    requires
        n <= bytes@.len(),
    ensures
        x == spec_xor(bytes@.take(n as int)),
{
    let mut acc: u8 = 0;
    let mut i: usize = 0;
    while i < n
        invariant
            0 <= i <= n <= bytes@.len(),
            acc == spec_xor(bytes@.take(i as int)),
        decreases n - i,
    {
        assert(bytes@.take(i as int + 1).drop_last() =~= bytes@.take(i as int));
        acc = acc ^ bytes[i];
        i = i + 1;
    }
    acc
}

/// The bitwise register update for one byte matches the spec's eight steps.
fn crc_byte(crc: u32, byte: u8) -> (r: u32)
    ensures
        r == spec_crc_8bits(crc ^ (byte as u32)),
{
    let mut c = crc ^ (byte as u32);
    let ghost c0 = c;
    let mut k: u32 = 0;
    while k < 8
        invariant
            0 <= k <= 8,
            c == spec_crc_bits_n(c0, k as nat),
        decreases 8 - k,
    {
        let mask = 0u32.wrapping_sub(c & 1u32);
        proof {
            let cc = c;
            assert(mask == 0u32.wrapping_sub(cc & 1u32));
            assert((cc >> 1u32) ^ (CRC32_POLY & (if cc & 1u32 == 1u32 { 0xFFFF_FFFFu32 } else { 0u32 }))
                == spec_crc_bit(cc)) by (bit_vector);
            assert((cc & 1u32 == 1u32 ==> vstd::wrapping::u32_specs::wrapping_sub(0u32, cc & 1u32) == 0xFFFF_FFFFu32)
                && (cc & 1u32 != 1u32 ==> cc & 1u32 == 0u32)) by (bit_vector);
        }
        c = (c >> 1u32) ^ (CRC32_POLY & mask);
        k = k + 1;
    }
    proof {
        reveal_with_fuel(spec_crc_bits_n, 9);
    }
    c
}

/// `n` bit steps of the CRC register.
pub open spec fn spec_crc_bits_n(c: u32, n: nat) -> u32
    decreases n,
{
    if n == 0 {
        c
    } else {
        spec_crc_bit(spec_crc_bits_n(c, (n - 1) as nat))
    }
}

/// CRC-32/ISO-HDLC, reflected polynomial 0xEDB88320, of the first `n`
/// bytes of `bytes`.
pub fn crc32_prefix(bytes: &[u8], n: usize) -> (r: u32)
    requires
        n <= bytes@.len(),
    ensures
        r == spec_crc32(bytes@.take(n as int)),
{
    let mut crc: u32 = 0xFFFF_FFFF;
    let mut i: usize = 0;
    while i < n
        invariant
            0 <= i <= n <= bytes@.len(),
            crc == spec_crc_register(0xFFFF_FFFFu32, bytes@.take(i as int)),
        decreases n - i,
    {
        assert(bytes@.take(i as int + 1).drop_last() =~= bytes@.take(i as int));
        crc = crc_byte(crc, bytes[i]);
        i = i + 1;
    }
    !crc
}

/// CRC-32/ISO-HDLC of every byte of `bytes`.
pub fn crc32(bytes: &[u8]) -> (r: u32)
    ensures
        r == spec_crc32(bytes@),
{
    let r = crc32_prefix(bytes, bytes.len());
    assert(bytes@.take(bytes@.len() as int) =~= bytes@);
    r
}

/// Encode parts and settings into the exact 22-byte layout, including the
/// trailing XOR checksum and CRC32.
pub fn encode(parts: [u8; 5], settings: &GameSettings) -> (out: Vec<u8>)
    ensures
        out@ == spec_encode(parts, *settings),
        out@.len() == SAVE_LEN,
{
    let mut out: Vec<u8> = Vec::new();
    out.push(0x46);
    out.push(0x53);
    out.push(0x50);
    out.push(0x4E);
    out.push(SAVE_VERSION);
    let mut i: usize = 0;
    while i < PARTS_LEN
        invariant
            0 <= i <= PARTS_LEN,
            out@ == spec_magic() + seq![SAVE_VERSION] + parts@.take(i as int),
        decreases PARTS_LEN - i,
    {
        out.push(parts[i]);
        assert(parts@.take(i as int + 1) =~= parts@.take(i as int).push(parts@[i as int]));
        i = i + 1;
    }
    out.push(settings.music_vol);
    out.push(settings.sfx_vol);
    out.push(shake_to_byte(settings.shake));
    out.push(difficulty_to_byte(settings.difficulty));
    out.push(window_scale_to_byte(settings.window_scale));
    out.push(if settings.colorblind { 1 } else { 0 });
    out.push(0);
    assert(parts@.take(5) =~= parts@);
    assert(out@ =~= spec_body(parts, *settings));
    let checksum = xor_prefix(out.as_slice(), OFF_CHECKSUM);
    assert(out@.take(17) =~= out@);
    out.push(checksum);
    let crc = crc32(out.as_slice());
    let crc_bytes = crate::hash::u32_le_bytes(crc);
    out.push(crc_bytes[0]);
    out.push(crc_bytes[1]);
    out.push(crc_bytes[2]);
    out.push(crc_bytes[3]);
    assert(out@ =~= spec_encode(parts, *settings));
    out
}

/// Decode raw bytes. Never panics and never partially applies: any failure
/// yields the default state.
pub fn decode(bytes: &[u8]) -> (s: SaveState)
    ensures
        s == spec_decode(bytes@),
{
    decode_outcome(bytes).state_or_default()
}

/// Validate and classify a complete save blob.
pub fn decode_outcome(bytes: &[u8]) -> (r: SaveLoadOutcome)
    ensures
        r == spec_decode_outcome(bytes@),
{
    let b = bytes;
    let ghost s = bytes@;
    if b.len() == 0 {
        return SaveLoadOutcome::Missing;
    }
    let has_magic = b.len() >= 4 && b[0] == 0x46 && b[1] == 0x53 && b[2] == 0x50 && b[3] == 0x4E;
    proof {
        if b.len() >= 4 {
            assert(has_magic == (s.take(4) =~= spec_magic()));
        }
    }
    if b.len() > OFF_VERSION && has_magic && b[OFF_VERSION] != SAVE_VERSION {
        return SaveLoadOutcome::Incompatible { version: b[OFF_VERSION] };
    }
    if b.len() != SAVE_LEN {
        return SaveLoadOutcome::Corrupt;
    }
    if !has_magic {
        return SaveLoadOutcome::Corrupt;
    }
    if b[OFF_VERSION] != SAVE_VERSION {
        return SaveLoadOutcome::Incompatible { version: b[OFF_VERSION] };
    }
    let checksum = xor_prefix(b, OFF_CHECKSUM);
    if checksum != b[OFF_CHECKSUM] {
        return SaveLoadOutcome::Corrupt;
    }
    let expected_crc: u32 = (b[OFF_CRC32] as u32) | ((b[OFF_CRC32 + 1] as u32) << 8u32) | ((b[OFF_CRC32
        + 2] as u32) << 16u32) | ((b[OFF_CRC32 + 3] as u32) << 24u32);
    if crc32_prefix(b, OFF_CRC32) != expected_crc {
        return SaveLoadOutcome::Corrupt;
    }
    if b[OFF_SETTINGS + 6] != 0 {
        return SaveLoadOutcome::Corrupt;
    }
    if b[5] >= 4 || b[6] >= 4 || b[7] >= 4 || b[8] >= 4 || b[9] >= 4 {
        return SaveLoadOutcome::Corrupt;
    }
    let music_vol = b[OFF_SETTINGS];
    let sfx_vol = b[OFF_SETTINGS + 1];
    let shake = match shake_from_byte(b[OFF_SETTINGS + 2]) {
        Some(v) => v,
        None => {
            return SaveLoadOutcome::Corrupt;
        },
    };
    let difficulty = match difficulty_from_byte(b[OFF_SETTINGS + 3]) {
        Some(v) => v,
        None => {
            return SaveLoadOutcome::Corrupt;
        },
    };
    let window_scale = match window_scale_from_byte(b[OFF_SETTINGS + 4]) {
        Some(v) => v,
        None => {
            return SaveLoadOutcome::Corrupt;
        },
    };
    let colorblind_byte = b[OFF_SETTINGS + 5];
    if colorblind_byte > 1 {
        return SaveLoadOutcome::Corrupt;
    }
    if music_vol > 10 || sfx_vol > 10 {
        return SaveLoadOutcome::Corrupt;
    }
    let parts: [u8; 5] = [b[OFF_PARTS], b[OFF_PARTS + 1], b[OFF_PARTS + 2], b[OFF_PARTS + 3], b[OFF_PARTS + 4]];
    SaveLoadOutcome::Loaded(
        SaveState {
            parts,
            settings: GameSettings {
                music_vol,
                sfx_vol,
                shake,
                difficulty,
                window_scale,
                colorblind: colorblind_byte == 1,
            },
        },
    )
}

/// The little-endian reading of a `u32`'s own little-endian bytes is the
/// value itself.
pub proof fn lemma_u32_le_roundtrip(v: u32)
    ensures
        spec_u32_le(
            crate::hash::le_bytes_u32(v)[0],
            crate::hash::le_bytes_u32(v)[1],
            crate::hash::le_bytes_u32(v)[2],
            crate::hash::le_bytes_u32(v)[3],
        ) == v,
{
    let b0 = (v & 0xff) as u8;
    let b1 = ((v >> 8u32) & 0xff) as u8;
    let b2 = ((v >> 16u32) & 0xff) as u8;
    let b3 = ((v >> 24u32) & 0xff) as u8;
    assert((b0 as u32) == v & 0xff) by (bit_vector)
        requires b0 == (v & 0xff) as u8;
    assert((b1 as u32) == (v >> 8u32) & 0xff) by (bit_vector)
        requires b1 == ((v >> 8u32) & 0xff) as u8;
    assert((b2 as u32) == (v >> 16u32) & 0xff) by (bit_vector)
        requires b2 == ((v >> 16u32) & 0xff) as u8;
    assert((b3 as u32) == (v >> 24u32) & 0xff) by (bit_vector)
        requires b3 == ((v >> 24u32) & 0xff) as u8;
    assert((v & 0xff) | (((v >> 8u32) & 0xff) << 8u32) | (((v >> 16u32) & 0xff) << 16u32) | (((v
        >> 24u32) & 0xff) << 24u32) == v) by (bit_vector);
}

/// Decoding what `encode` wrote gives back exactly the parts and settings
/// it was given, for every state a save can hold.
pub proof fn law_decode_encode_roundtrip(parts: [u8; 5], settings: GameSettings)
    requires
        state_valid(parts, settings),
    ensures
        spec_decode_outcome(spec_encode(parts, settings)) == SaveLoadOutcome::Loaded(
            SaveState { parts, settings },
        ),
        spec_decode(spec_encode(parts, settings)) == (SaveState { parts, settings }),
{
    let body = spec_body(parts, settings);
    let checked = body.push(spec_xor(body));
    let crc = spec_crc32(checked);
    let e = spec_encode(parts, settings);
    assert(e.len() == 22);
    assert(e.take(4) =~= spec_magic());
    assert(e.take(17) =~= body);
    assert(e.take(18) =~= checked);
    lemma_u32_le_roundtrip(crc);
    assert(e[18] == crate::hash::le_bytes_u32(crc)[0]);
    assert(e[19] == crate::hash::le_bytes_u32(crc)[1]);
    assert(e[20] == crate::hash::le_bytes_u32(crc)[2]);
    assert(e[21] == crate::hash::le_bytes_u32(crc)[3]);
    assert(parts[0] < 4 && parts[1] < 4 && parts[2] < 4 && parts[3] < 4 && parts[4] < 4);
    let arr: [u8; 5] = [e[5], e[6], e[7], e[8], e[9]];
    assert(arr@ =~= parts@);
    assert(arr == parts);
}

/// Whatever the bytes, decoding yields either the default state or a state
/// a valid save can hold; never a half-applied mix.
pub proof fn law_decode_is_default_or_valid(b: Seq<u8>)
    ensures
        spec_decode(b) == spec_default_state() || state_valid(spec_decode(b).parts, spec_decode(b).settings),
        spec_decode_outcome(b) matches SaveLoadOutcome::Loaded(st) ==> b.len() == SAVE_LEN && st.parts@ =~= b.subrange(5, 10),
{
    if let SaveLoadOutcome::Loaded(st) = spec_decode_outcome(b) {
        assert(st.parts@ =~= b.subrange(5, 10));
    }
}

/// Only a blob of exactly `SAVE_LEN` bytes can load: anything shorter
/// (every truncated save among them) or longer decodes to the default state.
pub proof fn law_wrong_length_decodes_to_default(b: Seq<u8>)
    requires
        b.len() != SAVE_LEN,
    ensures
        spec_decode(b) == spec_default_state(),
        !(spec_decode_outcome(b) is Loaded),
{
}

} // verus!
