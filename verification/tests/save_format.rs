use lib::flow::{FlowState, GameSettings, ShakeLevel, WindowScale};
use lib::minigame::Difficulty;
use lib::save::{self, decode, encode, SaveLoadOutcome, SaveState, OFF_CHECKSUM, OFF_SETTINGS, OFF_VERSION, SAVE_LEN};

fn sample_settings() -> GameSettings {
    GameSettings {
        music_vol: 7,
        sfx_vol: 3,
        shake: ShakeLevel::High,
        difficulty: Difficulty::Hard,
        window_scale: WindowScale::X2,
        colorblind: true,
    }
}

#[test]
fn round_trip_preserves_parts_and_settings() {
    let parts = [1u8, 2, 3, 0, 3];
    let settings = sample_settings();
    let bytes = encode(parts, &settings);
    let decoded = decode(&bytes);
    assert_eq!(decoded.parts, parts);
    assert_eq!(decoded.settings, settings);
}

#[test]
fn round_trip_default_settings_and_parts() {
    let parts = [0u8; 5];
    let settings = GameSettings::default();
    let bytes = encode(parts, &settings);
    let decoded = decode(&bytes);
    assert_eq!(decoded.parts, parts);
    assert_eq!(decoded.settings, settings);
}

#[test]
fn empty_bytes_decode_to_defaults() {
    assert_eq!(decode(&[]), SaveState::default());
}

#[test]
fn every_truncated_prefix_length_decodes_to_defaults() {
    let bytes = encode([1, 2, 3, 4, 5], &sample_settings());
    for len in 0..bytes.len() {
        let decoded = decode(&bytes[..len]);
        assert_eq!(decoded, SaveState::default(), "truncated to {len} bytes must fall back to defaults");
    }
}

#[test]
fn flipped_magic_byte_decodes_to_defaults() {
    let mut bytes = encode([1, 2, 3, 0, 1], &sample_settings());
    bytes[0] ^= 0xFF;
    assert_eq!(decode(&bytes), SaveState::default());
}

#[test]
fn wrong_version_decodes_to_defaults() {
    for &v in &[0u8, 99u8] {
        let mut bytes = encode([1, 2, 3, 0, 1], &sample_settings());
        bytes[OFF_VERSION] = v;
        assert_eq!(decode(&bytes), SaveState::default(), "version {v}");
    }
}

#[test]
fn flipped_checksum_decodes_to_defaults() {
    let mut bytes = encode([1, 2, 3, 0, 1], &sample_settings());
    let last = bytes.len() - 1;
    bytes[last] ^= 0xFF;
    assert_eq!(decode(&bytes), SaveState::default());
}

#[test]
fn each_settings_enum_byte_set_to_0xff_falls_back_to_defaults() {
    for enum_off in [OFF_SETTINGS + 2, OFF_SETTINGS + 3, OFF_SETTINGS + 4] {
        let mut bytes = encode([1, 2, 3, 0, 1], &sample_settings());
        bytes[enum_off] = 0xFF;
        let checksum = bytes[..OFF_CHECKSUM].iter().fold(0u8, |acc, &b| acc ^ b);
        *bytes.last_mut().unwrap() = checksum;
        assert_eq!(decode(&bytes), SaveState::default(), "enum byte at offset {enum_off} = 0xFF must reject");
    }
    let mut bytes = encode([1, 2, 3, 0, 1], &sample_settings());
    bytes[OFF_SETTINGS + 5] = 0xFF;
    let checksum = bytes[..OFF_CHECKSUM].iter().fold(0u8, |acc, &b| acc ^ b);
    *bytes.last_mut().unwrap() = checksum;
    assert_eq!(decode(&bytes), SaveState::default());
}

#[test]
fn one_extra_trailing_byte_decodes_to_defaults() {
    let mut bytes = encode([1, 2, 3, 0, 1], &sample_settings());
    bytes.push(0xAB);
    assert_eq!(decode(&bytes), SaveState::default());
}

#[test]
fn all_zeros_decodes_to_defaults() {
    let bytes = vec![0u8; SAVE_LEN];
    assert_eq!(decode(&bytes), SaveState::default());
}

#[test]
fn random_bytes_never_panic_and_bad_ones_fall_back_to_defaults() {
    let mut state: u64 = 0x1234_5678_9abc_def0;
    for _ in 0..500 {
        state ^= state << 13;
        state ^= state >> 7;
        state ^= state << 17;
        let len = (state % (SAVE_LEN as u64 * 2)) as usize;
        let mut bytes = Vec::with_capacity(len);
        let mut s = state;
        for _ in 0..len {
            s ^= s << 13;
            s ^= s >> 7;
            s ^= s << 17;
            bytes.push((s & 0xFF) as u8);
        }
        let decoded = decode(&bytes);
        assert_eq!(decoded.parts.len(), 5);
        assert!(decoded.settings.music_vol <= 10);
        assert!(decoded.settings.sfx_vol <= 10);
    }
}

#[test]
fn save_len_matches_the_documented_v2_layout() {
    assert_eq!(SAVE_LEN, 22);
    let bytes = save::encode([0; 5], &GameSettings::default());
    assert_eq!(bytes.len(), SAVE_LEN);
}

#[test]
fn encoded_bytes_match_the_documented_offsets_exactly() {
    let parts = [1u8, 2, 3, 0, 0];
    let settings = GameSettings {
        music_vol: 5,
        sfx_vol: 6,
        shake: ShakeLevel::Low,
        difficulty: Difficulty::Ace,
        window_scale: WindowScale::X1_5,
        colorblind: true,
    };
    let bytes = save::encode(parts, &settings);
    assert_eq!(&bytes[0..4], b"FSPN", "magic must be at offset 0");
    assert_eq!(bytes[4], save::SAVE_VERSION, "version must be at offset 4");
    assert_eq!(&bytes[5..10], &parts, "parts must be at offset 5, 5 bytes");
    assert_eq!(bytes[10], 5);
    assert_eq!(bytes[11], 6);
    assert_eq!(bytes[12], 1);
    assert_eq!(bytes[13], 3);
    assert_eq!(bytes[14], 1);
    assert_eq!(bytes[15], 1);
    assert_eq!(bytes[16], 0, "reserved padding byte must be 0");
    let checksum = bytes[..17].iter().fold(0u8, |acc, &b| acc ^ b);
    assert_eq!(bytes[17], checksum, "checksum must be XOR of bytes 0..17");
    assert_ne!(&bytes[18..22], &[0; 4], "CRC32 follows the XOR byte");
    assert_eq!(u32::from_le_bytes(bytes[18..22].try_into().unwrap()), save::crc32(&bytes[..18]));
}

#[test]
fn v1_is_classified_as_incompatible() {
    let mut old = vec![0u8; 18];
    old[..4].copy_from_slice(b"FSPN");
    old[4] = 1;
    assert_eq!(save::decode_outcome(&old), SaveLoadOutcome::Incompatible { version: 1 });
}

#[test]
fn invalid_part_and_reserved_byte_are_corrupt() {
    for offset in [5usize, 16] {
        let mut bytes = save::encode([0; 5], &GameSettings::default());
        bytes[offset] = 4;
        assert_eq!(save::decode_outcome(&bytes), SaveLoadOutcome::Corrupt);
    }
}

#[test]
fn outcome_classifies_missing_loaded_and_corrupt() {
    assert_eq!(save::decode_outcome(&[]), SaveLoadOutcome::Missing);
    let bytes = encode([1, 2, 3, 0, 1], &sample_settings());
    let loaded = save::decode_outcome(&bytes);
    assert_eq!(
        loaded,
        SaveLoadOutcome::Loaded(SaveState { parts: [1, 2, 3, 0, 1], settings: sample_settings() })
    );
    assert_eq!(loaded.state_or_default().settings, sample_settings());
    assert_eq!(save::decode_outcome(&bytes[..10]), SaveLoadOutcome::Corrupt);
    assert_eq!(SaveLoadOutcome::Corrupt.state_or_default(), SaveState::default());
}

#[test]
fn crc32_known_value_of_the_save_checksum() {
    assert_eq!(save::crc32(b"123456789"), 0xCBF4_3926);
    assert_eq!(save::crc32(b""), 0);
}

#[test]
fn flow_state_save_snapshot_round_trips_through_encode_decode_apply() {
    let mut flow = FlowState::new(42);
    flow.parts = [3, 1, 0, 2, 3];
    flow.settings.music_vol = 2;
    flow.settings.sfx_vol = 9;
    flow.settings.shake = ShakeLevel::High;
    flow.settings.difficulty = Difficulty::Hard;
    flow.settings.window_scale = WindowScale::Fullscreen;
    flow.settings.colorblind = true;
    let (parts, settings) = flow.save_snapshot();
    let bytes = save::encode(parts, &settings);
    let decoded = save::decode(&bytes);
    let mut restored = FlowState::new(999);
    restored.apply_save(decoded);
    assert_eq!(restored.parts, flow.parts);
    assert_eq!(restored.settings, flow.settings);
}

#[test]
fn a_save_from_an_unrelated_random_blob_never_panics_and_is_a_valid_default_or_real_state() {
    let candidates: [&[u8]; 4] = [
        b"NOTASAVEFILE1234\x00\x00",
        b"\x00\x00\x00\x00\x00\x00\x00\x00\x00\x00\x00\x00\x00\x00\x00\x00\x00\x00",
        b"FSPN\x01\x00\x00\x00\x00\x00\xFF\xFF\xFF\xFF\xFF\xFF\xFF\xFF\xFF",
        b"FSPNFSPNFSPNFSPNFS",
    ];
    for c in candidates {
        let decoded = save::decode(c);
        assert!(decoded.parts.len() == 5);
        assert!(decoded.settings.music_vol <= 10);
        assert!(decoded.settings.sfx_vol <= 10);
    }
}

#[test]
fn decode_default_equals_save_state_default() {
    assert_eq!(save::decode(&[]), SaveState::default());
    assert_eq!(SaveState::default().parts, [0u8; 5]);
    assert_eq!(SaveState::default().settings, GameSettings::default());
}
