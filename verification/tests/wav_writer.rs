use lib::wav::encode_mono16;

#[test]
fn wav_header_and_sizes_for_four_samples() {
    let samples: [i16; 4] = [0, 1000, -1000, i16::MAX];
    let wav = encode_mono16(44_100, &samples);
    assert_eq!(&wav[0..4], b"RIFF");
    let riff_size = u32::from_le_bytes(wav[4..8].try_into().unwrap());
    assert_eq!(riff_size as usize, wav.len() - 8);
    assert_eq!(&wav[8..12], b"WAVE");
    assert_eq!(&wav[12..16], b"fmt ");
    assert_eq!(u32::from_le_bytes(wav[16..20].try_into().unwrap()), 16);
    assert_eq!(u16::from_le_bytes(wav[20..22].try_into().unwrap()), 1);
    assert_eq!(u16::from_le_bytes(wav[22..24].try_into().unwrap()), 1);
    assert_eq!(u32::from_le_bytes(wav[24..28].try_into().unwrap()), 44_100);
    assert_eq!(u32::from_le_bytes(wav[28..32].try_into().unwrap()), 44_100 * 2);
    assert_eq!(u16::from_le_bytes(wav[32..34].try_into().unwrap()), 2);
    assert_eq!(u16::from_le_bytes(wav[34..36].try_into().unwrap()), 16);
    assert_eq!(&wav[36..40], b"data");
    let data_size = u32::from_le_bytes(wav[40..44].try_into().unwrap());
    assert_eq!(data_size, (samples.len() * 2) as u32);
    assert_eq!(wav.len(), 44 + samples.len() * 2);
    for (i, &s) in samples.iter().enumerate() {
        let off = 44 + i * 2;
        let got = i16::from_le_bytes(wav[off..off + 2].try_into().unwrap());
        assert_eq!(got, s);
    }
}

#[test]
fn wav_empty_samples_has_zero_data_size() {
    let wav = encode_mono16(8_000, &[]);
    assert_eq!(wav.len(), 44);
    let data_size = u32::from_le_bytes(wav[40..44].try_into().unwrap());
    assert_eq!(data_size, 0);
}

#[test]
fn negative_samples_are_written_in_twos_complement() {
    let wav = encode_mono16(22_050, &[-1, i16::MIN]);
    assert_eq!(&wav[44..48], &[0xFF, 0xFF, 0x00, 0x80]);
}
