use lib::pe::imports;

fn build_synthetic_pe32plus() -> Vec<u8> {
    let e_lfanew: u32 = 0x40;
    let pe_off = e_lfanew as usize;
    let coff_off = pe_off + 4;
    let opt_off = coff_off + 20;
    let opt_len = 112 + 16 * 8;
    let sect_off = opt_off + opt_len;
    let sect_len = 40;
    let raw_off = sect_off + sect_len;
    let section_va: u32 = 0x2000;
    let desc0_rel = 0usize;
    let desc1_rel = 20usize;
    let term_rel = 40usize;
    let kernel32_name_rel = 60usize;
    let kernel32_name = b"KERNEL32.dll\0";
    let user32_name_rel = kernel32_name_rel + kernel32_name.len();
    let user32_name = b"user32.dll\0";
    let content_len = user32_name_rel + user32_name.len();
    let total_len = raw_off + content_len;
    let mut img = vec![0u8; total_len];
    img[0x3C..0x40].copy_from_slice(&e_lfanew.to_le_bytes());
    img[pe_off..pe_off + 4].copy_from_slice(b"PE\0\0");
    img[coff_off..coff_off + 2].copy_from_slice(&0x8664u16.to_le_bytes());
    img[coff_off + 2..coff_off + 4].copy_from_slice(&1u16.to_le_bytes());
    img[coff_off + 16..coff_off + 18].copy_from_slice(&(opt_len as u16).to_le_bytes());
    img[opt_off..opt_off + 2].copy_from_slice(&0x020Bu16.to_le_bytes());
    let import_rva = section_va + desc0_rel as u32;
    let import_size = (term_rel - desc0_rel + 20) as u32;
    let dir_off = opt_off + 112 + 8;
    img[dir_off..dir_off + 4].copy_from_slice(&import_rva.to_le_bytes());
    img[dir_off + 4..dir_off + 8].copy_from_slice(&import_size.to_le_bytes());
    img[sect_off..sect_off + 8].copy_from_slice(b".idata\0\0");
    img[sect_off + 8..sect_off + 12].copy_from_slice(&(content_len as u32).to_le_bytes());
    img[sect_off + 12..sect_off + 16].copy_from_slice(&section_va.to_le_bytes());
    img[sect_off + 16..sect_off + 20].copy_from_slice(&(content_len as u32).to_le_bytes());
    img[sect_off + 20..sect_off + 24].copy_from_slice(&(raw_off as u32).to_le_bytes());
    let kernel32_name_rva = section_va + kernel32_name_rel as u32;
    img[raw_off + desc0_rel + 12..raw_off + desc0_rel + 16].copy_from_slice(&kernel32_name_rva.to_le_bytes());
    let user32_name_rva = section_va + user32_name_rel as u32;
    img[raw_off + desc1_rel + 12..raw_off + desc1_rel + 16].copy_from_slice(&user32_name_rva.to_le_bytes());
    let _ = term_rel;
    img[raw_off + kernel32_name_rel..raw_off + kernel32_name_rel + kernel32_name.len()].copy_from_slice(kernel32_name);
    img[raw_off + user32_name_rel..raw_off + user32_name_rel + user32_name.len()].copy_from_slice(user32_name);
    img
}

#[test]
fn parses_synthetic_import_table() {
    let img = build_synthetic_pe32plus();
    let names = imports(&img).expect("valid synthetic PE should parse");
    assert_eq!(names, vec!["KERNEL32.dll".to_string(), "user32.dll".to_string()]);
}

#[test]
fn empty_input_is_err_not_panic() {
    assert!(imports(&[]).is_err());
}

#[test]
fn short_buffer_is_err_not_panic() {
    assert!(imports(&[0u8; 10]).is_err());
    assert_eq!(imports(&[0u8; 10]), Err("read out of bounds"));
}

#[test]
fn garbage_e_lfanew_is_err_not_panic() {
    let mut img = vec![0u8; 0x100];
    img[0x3C..0x40].copy_from_slice(&0xFFFF_FFFFu32.to_le_bytes());
    assert!(imports(&img).is_err());
}

#[test]
fn wrong_signature_is_err_not_panic() {
    let mut img = vec![0u8; 0x100];
    let e_lfanew: u32 = 0x40;
    img[0x3C..0x40].copy_from_slice(&e_lfanew.to_le_bytes());
    img[0x40..0x44].copy_from_slice(b"NOPE");
    assert!(imports(&img).is_err());
    assert_eq!(imports(&img), Err("missing PE signature"));
}

#[test]
fn truncated_valid_image_at_every_prefix_is_err_or_ok_never_panics() {
    let img = build_synthetic_pe32plus();
    for len in 0..img.len() {
        let _ = imports(&img[..len]);
    }
}

#[test]
fn pe32_not_plus_is_rejected() {
    let mut img = build_synthetic_pe32plus();
    let opt_off = 0x40 + 4 + 20;
    img[opt_off..opt_off + 2].copy_from_slice(&0x010Bu16.to_le_bytes());
    assert_eq!(imports(&img), Err("not a PE32+ image (magic mismatch)"));
}

#[test]
fn zero_import_rva_returns_empty() {
    let mut img = build_synthetic_pe32plus();
    let opt_off = 0x40 + 4 + 20;
    let dir_off = opt_off + 112 + 8;
    img[dir_off..dir_off + 4].copy_from_slice(&0u32.to_le_bytes());
    assert_eq!(imports(&img), Ok(Vec::new()));
}

#[test]
fn each_malformed_piece_gets_its_own_diagnostic() {
    let img = build_synthetic_pe32plus();
    let sect_off = 0x40 + 4 + 20 + 240;
    let raw_off = sect_off + 40;

    let mut non_ascii = img.clone();
    non_ascii[raw_off + 60] = 0xC3;
    assert_eq!(imports(&non_ascii), Err("non-ascii import name"));

    let mut unterminated = img.clone();
    let n = unterminated.len();
    unterminated[n - 1] = b'x';
    assert_eq!(imports(&unterminated), Err("unterminated string"));

    let mut outside = img.clone();
    outside[raw_off + 12..raw_off + 16].copy_from_slice(&0x9000u32.to_le_bytes());
    assert_eq!(imports(&outside), Err("rva not contained in any section"));

    let mut no_sections = img.clone();
    no_sections[0x40 + 4 + 2] = 200;
    assert_eq!(imports(&no_sections), Err("section table out of bounds"));

    let mut tiny_optional = img.clone();
    tiny_optional[0x40 + 4 + 16..0x40 + 4 + 18].copy_from_slice(&2u16.to_le_bytes());
    tiny_optional.truncate(0x40 + 4 + 20 + 100);
    assert_eq!(imports(&tiny_optional), Err("data directory out of bounds"));

    let mut long_optional = img.clone();
    long_optional[0x40 + 4 + 16..0x40 + 4 + 18].copy_from_slice(&0xFFFFu16.to_le_bytes());
    assert_eq!(imports(&long_optional), Err("optional header out of bounds"));

    let mut short_sig = vec![0u8; 0x42];
    short_sig[0x3C..0x40].copy_from_slice(&0x40u32.to_le_bytes());
    assert_eq!(imports(&short_sig), Err("PE signature out of bounds"));
}
