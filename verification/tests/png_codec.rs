use lib::png::{adler32, crc32, decode_rgb, encode_rgb, inflate_stored, zlib_store};

const PNG_SIGNATURE: [u8; 8] = [0x89, 0x50, 0x4E, 0x47, 0x0D, 0x0A, 0x1A, 0x0A];

#[test]
fn adler32_known_value() {
    assert_eq!(adler32(b"Wikipedia"), 0x11E6_0398);
}

#[test]
fn crc32_known_value() {
    assert_eq!(crc32(b"123456789"), 0xCBF4_3926);
}

#[test]
fn small_png_structure_and_checksums() {
    let width = 3u32;
    let height = 2u32;
    let pixels: Vec<u32> = (0..width * height).map(|i| i * 0x010101).collect();
    let png = encode_rgb(width, height, &pixels);
    assert_eq!(&png[0..8], &PNG_SIGNATURE);
    let mut offset = 8usize;
    let mut chunks = Vec::new();
    loop {
        assert!(offset + 8 <= png.len(), "truncated chunk header");
        let len = u32::from_be_bytes(png[offset..offset + 4].try_into().unwrap()) as usize;
        let kind = &png[offset + 4..offset + 8];
        let data_start = offset + 8;
        let data_end = data_start + len;
        assert!(data_end + 4 <= png.len(), "truncated chunk data/crc");
        let data = &png[data_start..data_end];
        let stored_crc = u32::from_be_bytes(png[data_end..data_end + 4].try_into().unwrap());
        let mut crc_input = Vec::with_capacity(4 + len);
        crc_input.extend_from_slice(kind);
        crc_input.extend_from_slice(data);
        assert_eq!(crc32(&crc_input), stored_crc, "CRC mismatch for chunk {kind:?}");
        chunks.push((kind.to_vec(), data.to_vec()));
        offset = data_end + 4;
        if kind == b"IEND" {
            break;
        }
    }
    assert_eq!(offset, png.len(), "trailing bytes after IEND");
    assert_eq!(chunks[0].0, b"IHDR");
    let ihdr = &chunks[0].1;
    assert_eq!(u32::from_be_bytes(ihdr[0..4].try_into().unwrap()), width);
    assert_eq!(u32::from_be_bytes(ihdr[4..8].try_into().unwrap()), height);
    assert_eq!(ihdr[8], 8);
    assert_eq!(ihdr[9], 2);
    assert_eq!(chunks.last().unwrap().0, b"IEND");
    assert!(chunks.last().unwrap().1.is_empty());
    assert!(chunks.iter().any(|(k, _)| k == b"IDAT"));
}

#[test]
fn decode_rgb_round_trips_through_encode_rgb() {
    let width = 17u32;
    let height = 11u32;
    let pixels: Vec<u32> = (0..width * height)
        .map(|i| ((i * 37) & 0xFF) | (((i * 53) & 0xFF) << 8) | (((i * 11) & 0xFF) << 16))
        .collect();
    let png = encode_rgb(width, height, &pixels);
    let (got_w, got_h, got_pixels) = decode_rgb(&png).expect("decode should succeed");
    assert_eq!(got_w, width);
    assert_eq!(got_h, height);
    assert_eq!(got_pixels, pixels);
}

#[test]
fn decode_rgb_round_trips_a_multi_block_image() {
    let width = 300u32;
    let height = 100u32;
    let pixels: Vec<u32> = (0..width * height).map(|i| i.wrapping_mul(2654435761) & 0x00FF_FFFF).collect();
    let png = encode_rgb(width, height, &pixels);
    let (got_w, got_h, got_pixels) = decode_rgb(&png).expect("decode should succeed");
    assert_eq!(got_w, width);
    assert_eq!(got_h, height);
    assert_eq!(got_pixels, pixels);
}

#[test]
fn decode_rgb_round_trips_a_single_pixel_image() {
    let png = encode_rgb(1, 1, &[0x00ABCDEF]);
    let (w, h, pixels) = decode_rgb(&png).unwrap();
    assert_eq!((w, h), (1, 1));
    assert_eq!(pixels, vec![0x00ABCDEF]);
}

#[test]
fn high_pixel_bits_are_dropped_by_the_round_trip() {
    let png = encode_rgb(2, 1, &[0xFF12_3456, 0x0100_0000]);
    let (_, _, pixels) = decode_rgb(&png).unwrap();
    assert_eq!(pixels, vec![0x0012_3456, 0]);
}

#[test]
fn decode_rgb_rejects_bad_signature() {
    let mut png = encode_rgb(2, 2, &[0, 0, 0, 0]);
    png[0] = 0x00;
    assert!(decode_rgb(&png).is_err());
    assert_eq!(decode_rgb(&png), Err("bad PNG signature"));
}

#[test]
fn decode_rgb_rejects_truncated_input() {
    let png = encode_rgb(2, 2, &[0, 0, 0, 0]);
    for cut in [0usize, 4, 8, 20] {
        let truncated = &png[..png.len().saturating_sub(cut).min(png.len() - 1)];
        assert!(decode_rgb(truncated).is_err(), "expected an error for a truncated buffer (cut={cut})");
    }
    assert!(decode_rgb(&[]).is_err());
}

#[test]
fn decode_rgb_rejects_wrong_bit_depth_or_color_type() {
    let png = encode_rgb(2, 2, &[0, 0, 0, 0]);
    let ihdr_data_start = 8 + 8;
    let bit_depth_offset = ihdr_data_start + 8;
    let color_type_offset = ihdr_data_start + 9;
    let mut bad_depth = png.clone();
    bad_depth[bit_depth_offset] = 16;
    assert!(decode_rgb(&bad_depth).is_err());
    let mut bad_color = png.clone();
    bad_color[color_type_offset] = 6;
    assert!(decode_rgb(&bad_color).is_err());
}

#[test]
fn decode_rgb_rejects_corrupted_chunk_crc() {
    let mut png = encode_rgb(2, 2, &[0x00112233, 0x00445566, 0x00778899, 0x00AABBCC]);
    let last = png.len() - 1;
    png[last] ^= 0xFF;
    assert!(decode_rgb(&png).is_err());
    assert_eq!(decode_rgb(&png), Err("chunk CRC mismatch"));
}

fn find_chunk_data_offset(png: &[u8], kind: &[u8; 4]) -> Option<usize> {
    let mut offset = PNG_SIGNATURE.len();
    while offset + 8 <= png.len() {
        let len = u32::from_be_bytes(png[offset..offset + 4].try_into().unwrap()) as usize;
        let this_kind = &png[offset + 4..offset + 8];
        let data_start = offset + 8;
        let data_end = data_start + len;
        if this_kind == kind {
            return Some(data_start);
        }
        offset = data_end + 4;
    }
    None
}

#[test]
fn decode_rgb_rejects_corrupted_pixel_data() {
    let mut png = encode_rgb(4, 4, &[0x00808080; 16]);
    let idat_pos = find_chunk_data_offset(&png, b"IDAT").expect("has IDAT");
    png[idat_pos + 10] ^= 0xFF;
    assert!(decode_rgb(&png).is_err());
}

#[test]
fn zlib_store_round_trips_and_splits_into_stored_blocks() {
    let data: Vec<u8> = (0..70_000u32).map(|i| (i % 251) as u8).collect();
    let z = zlib_store(&data);
    assert_eq!(&z[0..2], &[0x78, 0x01]);
    assert_eq!(z[2], 0x00, "first block is not final");
    assert_eq!(z.len(), 2 + 5 + 65535 + 5 + (70_000 - 65535) + 4);
    assert_eq!(inflate_stored(&z).unwrap(), data);
    assert_eq!(inflate_stored(&zlib_store(&[])).unwrap(), Vec::<u8>::new());
}

#[test]
fn inflate_refuses_each_malformed_stream() {
    assert_eq!(inflate_stored(&[0x78, 0x01, 0x01]), Err(lib::png::PngFault::ZlibTooShort));
    let good = zlib_store(b"abc");
    let mut bad_method = good.clone();
    bad_method[0] = 0x79;
    assert_eq!(inflate_stored(&bad_method), Err(lib::png::PngFault::ZlibMethod));
    let mut bad_adler = good.clone();
    let n = bad_adler.len();
    bad_adler[n - 1] ^= 1;
    assert_eq!(inflate_stored(&bad_adler), Err(lib::png::PngFault::AdlerMismatch));
    let mut huffman = good.clone();
    huffman[2] = 0x03;
    assert_eq!(inflate_stored(&huffman), Err(lib::png::PngFault::UnsupportedBlockType));
    let mut bad_nlen = good.clone();
    bad_nlen[5] ^= 0xFF;
    assert_eq!(inflate_stored(&bad_nlen), Err(lib::png::PngFault::BlockLengthMismatch));
}

#[test]
fn encoded_length_is_header_chunks_and_one_block_per_65535_scanline_bytes() {
    assert_eq!(lib::png::encode_rgb(1, 1, &[0x00ABCDEF]).len(), 72);
    let (w, h) = (300u32, 100u32);
    let raw = (3 * w as usize + 1) * h as usize;
    let blocks = (raw + 65534) / 65535;
    let px = vec![0u32; (w * h) as usize];
    assert_eq!(lib::png::encode_rgb(w, h, &px).len(), 63 + raw + 5 * blocks);
}
