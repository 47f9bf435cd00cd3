//! PE32+ import-table reader: lists the DLL names a Windows executable
//! imports, in import-directory order. Every read is bounds checked and a
//! malformed image is refused with a fixed diagnostic, never a panic.
use vstd::prelude::*;

verus! {

/// One section header's address mapping.
#[derive(Clone, Copy, Debug, PartialEq, Eq, Structural)]
pub struct Section {
    pub virtual_address: u32,
    pub virtual_size: u32,
    pub size_of_raw_data: u32,
    pub pointer_to_raw_data: u32,
}

/// Little-endian `u16` at `off`.
pub open spec fn le16_at(buf: Seq<u8>, off: int) -> u16 {
    (buf[off] as u16) | ((buf[off + 1] as u16) << 8u16)
}

/// Little-endian `u32` at `off`.
pub open spec fn le32_at(buf: Seq<u8>, off: int) -> u32 {
    (buf[off] as u32) | ((buf[off + 1] as u32) << 8u32) | ((buf[off + 2] as u32) << 16u32) | ((buf[off
        + 3] as u32) << 24u32)
}

/// A bounds-checked little-endian `u16` read.
pub open spec fn spec_read_u16(buf: Seq<u8>, off: int) -> Result<u16, &'static str> {
    if off + 2 > usize::MAX {
        Err("offset overflow")
    } else if off + 2 > buf.len() {
        Err("read out of bounds")
    } else {
        Ok(le16_at(buf, off))
    }
}

/// A bounds-checked little-endian `u32` read.
pub open spec fn spec_read_u32(buf: Seq<u8>, off: int) -> Result<u32, &'static str> {
    if off + 4 > usize::MAX {
        Err("offset overflow")
    } else if off + 4 > buf.len() {
        Err("read out of bounds")
    } else {
        Ok(le32_at(buf, off))
    }
}

/// Index of the first NUL at or after `off`, or the buffer length.
pub open spec fn spec_nul_from(buf: Seq<u8>, off: int) -> int
    decreases buf.len() - off,
{
    if off < 0 || off >= buf.len() {
        buf.len() as int
    } else if buf[off] == 0 {
        off
    } else {
        spec_nul_from(buf, off + 1)
    }
}

/// Every byte below 0x80.
pub open spec fn all_ascii(bytes: Seq<u8>) -> bool {
    forall|i: int| 0 <= i < bytes.len() ==> #[trigger] bytes[i] < 0x80
}

/// A NUL-terminated ASCII name at `off`.
pub open spec fn spec_read_cstr(buf: Seq<u8>, off: int) -> Result<Seq<u8>, &'static str> {
    if off >= buf.len() {
        Err("string offset out of bounds")
    } else if spec_nul_from(buf, off) >= buf.len() {
        Err("unterminated string")
    } else if !all_ascii(buf.subrange(off, spec_nul_from(buf, off))) {
        Err("non-ascii import name")
    } else {
        Ok(buf.subrange(off, spec_nul_from(buf, off)))
    }
}

/// The characters of an ASCII byte string.
pub open spec fn ascii_chars(bytes: Seq<u8>) -> Seq<char> {
    bytes.map_values(|b: u8| b as char)
}

/// The `n` section headers of the table at `table`.
pub open spec fn spec_sections(image: Seq<u8>, table: int, n: nat) -> Seq<Section> {
    Seq::new(
        n,
        |i: int|
            Section {
                virtual_size: le32_at(image, table + 40 * i + 8),
                virtual_address: le32_at(image, table + 40 * i + 12),
                size_of_raw_data: le32_at(image, table + 40 * i + 16),
                pointer_to_raw_data: le32_at(image, table + 40 * i + 20),
            },
    )
}

/// The end of a section's address range: its start plus the larger of its
/// virtual and raw sizes, saturated at `u32::MAX`.
pub open spec fn spec_section_end(s: Section) -> int {
    let extent = if s.virtual_size >= s.size_of_raw_data { s.virtual_size } else { s.size_of_raw_data };
    if s.virtual_address + extent > u32::MAX {
        u32::MAX as int
    } else {
        s.virtual_address + extent
    }
}

/// File offset of `rva` through the first section (from `i` on) whose
/// range holds it.
pub open spec fn spec_rva_to_offset(secs: Seq<Section>, rva: u32, i: int) -> Result<usize, &'static str>
    decreases secs.len() - i,
{
    if i < 0 || i >= secs.len() {
        Err("rva not contained in any section")
    } else if secs[i].virtual_address <= rva < spec_section_end(secs[i]) {
        let off = secs[i].pointer_to_raw_data + (rva - secs[i].virtual_address);
        if off > usize::MAX {
            Err("rva overflow")
        } else {
            Ok(off as usize)
        }
    } else {
        spec_rva_to_offset(secs, rva, i + 1)
    }
}

/// DLL names of the import descriptors from file offset `off` on, up to
/// the all-zero-name terminator.
pub open spec fn spec_import_names(image: Seq<u8>, secs: Seq<Section>, off: int) -> Result<Seq<Seq<u8>>, &'static str>
    decreases image.len() - off,
{
    if off + 20 > usize::MAX {
        Err("offset overflow")
    } else if off + 20 > image.len() || off < 0 {
        Err("import descriptor out of bounds")
    } else {
        let name_rva = le32_at(image, off + 12);
        if name_rva == 0 {
            Ok(Seq::empty())
        } else {
            match spec_rva_to_offset(secs, name_rva, 0) {
                Err(e) => Err(e),
                Ok(name_off) => match spec_read_cstr(image, name_off as int) {
                    Err(e) => Err(e),
                    Ok(name) => match spec_import_names(image, secs, off + 20) {
                        Err(e) => Err(e),
                        Ok(rest) => Ok(seq![name] + rest),
                    },
                },
            }
        }
    }
}

/// The import list of a PE32+ image: DOS header's `e_lfanew`, the `PE\0\0`
/// signature, the COFF header's section count and optional-header size,
/// the PE32+ magic, the import data directory (entry 1), the section
/// table, and then the import descriptors. Offsets that would not fit a
/// `usize` are refused as overflow.
pub open spec fn spec_imports(image: Seq<u8>) -> Result<Seq<Seq<u8>>, &'static str> {
    match spec_read_u32(image, 0x3C) {
        Err(e) => Err(e),
        Ok(e_lfanew) => {
            let pe = e_lfanew as int;
            if pe + 4 > usize::MAX {
                Err("offset overflow")
            } else if pe + 4 > image.len() {
                Err("PE signature out of bounds")
            } else if image.subrange(pe, pe + 4) != seq![0x50u8, 0x45u8, 0u8, 0u8] {
                Err("missing PE signature")
            } else {
                spec_imports_after_signature(image, pe + 4)
            }
        },
    }
}

/// The rest of the parse once the signature is found; `coff` is the COFF
/// header's offset.
pub open spec fn spec_imports_after_signature(image: Seq<u8>, coff: int) -> Result<Seq<Seq<u8>>, &'static str> {
    if coff + 2 > usize::MAX {
        Err("offset overflow")
    } else {
        match spec_read_u16(image, coff + 2) {
            Err(e) => Err(e),
            Ok(n_sections) => if coff + 16 > usize::MAX {
                Err("offset overflow")
            } else {
                match spec_read_u16(image, coff + 16) {
                    Err(e) => Err(e),
                    Ok(opt_size) => {
                        let optional = coff + 20;
                        if optional > usize::MAX || optional + opt_size > usize::MAX {
                            Err("offset overflow")
                        } else if optional + opt_size > image.len() {
                            Err("optional header out of bounds")
                        } else {
                            match spec_read_u16(image, optional) {
                                Err(e) => Err(e),
                                Ok(magic) => if magic != 0x20B {
                                    Err("not a PE32+ image (magic mismatch)")
                                } else {
                                    spec_imports_from_directory(image, optional, opt_size as int, n_sections as nat)
                                },
                            }
                        }
                    },
                }
            },
        }
    }
}

/// The import directory, section table and descriptors, given the
/// optional header's offset and size and the section count.
pub open spec fn spec_imports_from_directory(image: Seq<u8>, optional: int, opt_size: int, n_sections: nat) -> Result<
    Seq<Seq<u8>>,
    &'static str,
> {
    let dir = optional + 120;
    if dir + 8 > usize::MAX {
        Err("offset overflow")
    } else if dir + 8 > image.len() {
        Err("data directory out of bounds")
    } else {
        let import_rva = le32_at(image, dir);
        let import_size = le32_at(image, dir + 4);
        if import_rva == 0 || import_size == 0 {
            Ok(Seq::empty())
        } else {
            let table = optional + opt_size;
            if 40 * n_sections > usize::MAX || table + 40 * n_sections > usize::MAX {
                Err("overflow")
            } else if table + 40 * n_sections > image.len() {
                Err("section table out of bounds")
            } else {
                let secs = spec_sections(image, table, n_sections);
                match spec_rva_to_offset(secs, import_rva, 0) {
                    Err(e) => Err(e),
                    Ok(first) => spec_import_names(image, secs, first as int),
                }
            }
        }
    }
}

fn read_u16(buf: &[u8], offset: usize) -> (r: Result<u16, &'static str>)
    ensures
        r == spec_read_u16(buf@, offset as int),
{
    if offset > usize::MAX - 2 {
        return Err("offset overflow");
    }
    if offset + 2 > buf.len() {
        return Err("read out of bounds");
    }
    Ok((buf[offset] as u16) | ((buf[offset + 1] as u16) << 8u16))
}

fn read_u32(buf: &[u8], offset: usize) -> (r: Result<u32, &'static str>)
    ensures
        r == spec_read_u32(buf@, offset as int),
{
    if offset > usize::MAX - 4 {
        return Err("offset overflow");
    }
    if offset + 4 > buf.len() {
        return Err("read out of bounds");
    }
    Ok((buf[offset] as u32) | ((buf[offset + 1] as u32) << 8u32) | ((buf[offset + 2] as u32) << 16u32) | ((
    buf[offset + 3] as u32) << 24u32))
}

/// `std::str::from_utf8` on bytes that are all ASCII: ASCII is valid
/// UTF-8 with one character per byte, so the call succeeds and the string
/// holds exactly those characters.
#[verifier::external_body]
fn ascii_str(bytes: &[u8]) -> (s: Option<&str>)
    requires
        all_ascii(bytes@),
    ensures
        s.is_some(),
        s.unwrap()@ == ascii_chars(bytes@),
{
    match std::str::from_utf8(bytes) {
        Ok(t) => Some(t),
        Err(_) => None,
    }
}

fn read_cstr(buf: &[u8], offset: usize) -> (r: Result<String, &'static str>)
    ensures
        match (r, spec_read_cstr(buf@, offset as int)) {
            (Ok(s), Ok(b)) => s@ == ascii_chars(b),
            (Err(e), Err(se)) => e == se,
            _ => false,
        },
{
    if offset >= buf.len() {
        return Err("string offset out of bounds");
    }
    let mut end = offset;
    while end < buf.len() && buf[end] != 0
        invariant
            offset <= end <= buf@.len(),
            offset < buf@.len(),
            spec_nul_from(buf@, offset as int) == spec_nul_from(buf@, end as int),
        decreases buf@.len() - end,
    {
        end = end + 1;
    }
    if end >= buf.len() {
        return Err("unterminated string");
    }
    assert(spec_nul_from(buf@, end as int) == end);
    let mut i = offset;
    while i < end
        invariant
            offset <= i <= end < buf@.len(),
            end == spec_nul_from(buf@, offset as int),
            forall|k: int| offset <= k < i ==> #[trigger] buf@[k] < 0x80,
        decreases end - i,
    {
        if buf[i] >= 0x80 {
            assert(buf@.subrange(offset as int, end as int)[i - offset] >= 0x80);
            return Err("non-ascii import name");
        }
        i = i + 1;
    }
    let bytes = slice_range(buf, offset, end);
    match ascii_str(bytes) {
        Some(t) => Ok(t.to_owned()),
        None => Err("non-ascii import name"),
    }
}

fn slice_range(buf: &[u8], from: usize, to: usize) -> (s: &[u8])
    requires
        from <= to <= buf@.len(),
    ensures
        s@ == buf@.subrange(from as int, to as int),
{
    let (head, _) = buf.split_at(to);
    let (_, mid) = head.split_at(from);
    mid
}

fn rva_to_offset(sections: &Vec<Section>, rva: u32) -> (r: Result<usize, &'static str>)
    ensures
        r == spec_rva_to_offset(sections@, rva, 0),
{
    let mut i: usize = 0;
    while i < sections.len()
        invariant
            i <= sections@.len(),
            spec_rva_to_offset(sections@, rva, 0) == spec_rva_to_offset(sections@, rva, i as int),
        decreases sections@.len() - i,
    {
        let s = sections[i];
        let extent = if s.virtual_size >= s.size_of_raw_data { s.virtual_size } else { s.size_of_raw_data };
        let section_end = s.virtual_address.saturating_add(extent);
        if rva >= s.virtual_address && rva < section_end {
            let delta = (rva - s.virtual_address) as usize;
            let ptr = s.pointer_to_raw_data as usize;
            if ptr > usize::MAX - delta {
                return Err("rva overflow");
            }
            return Ok(ptr + delta);
        }
        i = i + 1;
    }
    Err("rva not contained in any section")
}

fn read_sections(image: &[u8], table: usize, n: usize) -> (secs: Vec<Section>)
    requires
        table + 40 * n <= image@.len(),
    ensures
        secs@ == spec_sections(image@, table as int, n as nat),
{
    let len = image.len();
    let mut secs: Vec<Section> = Vec::new();
    let mut i: usize = 0;
    while i < n
        invariant
            i <= n,
            len == image@.len(),
            table + 40 * n <= image@.len(),
            secs@ == spec_sections(image@, table as int, i as nat),
        decreases n - i,
    {
        let base = table + i * 40;
        let s = Section {
            virtual_size: le32(image, base + 8),
            virtual_address: le32(image, base + 12),
            size_of_raw_data: le32(image, base + 16),
            pointer_to_raw_data: le32(image, base + 20),
        };
        secs.push(s);
        assert(secs@ =~= spec_sections(image@, table as int, (i + 1) as nat));
        i = i + 1;
    }
    secs
}

fn le32(buf: &[u8], off: usize) -> (v: u32)
    requires
        off + 4 <= buf@.len(),
    ensures
        v == le32_at(buf@, off as int),
{
    (buf[off] as u32) | ((buf[off + 1] as u32) << 8u32) | ((buf[off + 2] as u32) << 16u32) | ((buf[off
        + 3] as u32) << 24u32)
}

fn import_names(image: &[u8], sections: &Vec<Section>, first: usize) -> (r: Result<Vec<String>, &'static str>)
    ensures
        match (r, spec_import_names(image@, sections@, first as int)) {
            (Ok(v), Ok(sv)) => v@.len() == sv.len() && forall|i: int|
                0 <= i < sv.len() ==> #[trigger] v@[i]@ == ascii_chars(sv[i]),
            (Err(e), Err(se)) => e == se,
            _ => false,
        },
{
    let mut names: Vec<String> = Vec::new();
    let ghost mut got: Seq<Seq<u8>> = Seq::empty();
    let mut off = first;
    loop
        invariant_except_break
            off >= first,
            got.len() == names@.len(),
            forall|i: int| 0 <= i < got.len() ==> #[trigger] names@[i]@ == ascii_chars(got[i]),
            spec_import_names(image@, sections@, first as int) == match spec_import_names(image@, sections@, off as int) {
                Err(e) => Err(e),
                Ok(rest) => Ok::<Seq<Seq<u8>>, &'static str>(got + rest),
            },
        ensures
            match spec_import_names(image@, sections@, first as int) {
                Ok(sv) => names@.len() == sv.len() && forall|i: int|
                    0 <= i < sv.len() ==> #[trigger] names@[i]@ == ascii_chars(sv[i]),
                Err(_) => false,
            },
        decreases image@.len() - off,
    {
        if off > usize::MAX - 20 {
            return Err("offset overflow");
        }
        let desc_end = off + 20;
        if desc_end > image.len() {
            return Err("import descriptor out of bounds");
        }
        let name_rva = le32(image, off + 12);
        if name_rva == 0 {
            assert(got + Seq::<Seq<u8>>::empty() =~= got);
            break;
        }
        let name_off = match rva_to_offset(sections, name_rva) {
            Ok(o) => o,
            Err(e) => return Err(e),
        };
        let name = match read_cstr(image, name_off) {
            Ok(s) => s,
            Err(e) => return Err(e),
        };
        proof {
            let b = spec_read_cstr(image@, name_off as int)->Ok_0;
            match spec_import_names(image@, sections@, desc_end as int) {
                Ok(rest) => {
                    assert(got + (seq![b] + rest) =~= got.push(b) + rest);
                },
                Err(_) => {},
            }
            got = got.push(b);
        }
        names.push(name);
        off = desc_end;
    }
    Ok(names)
}

fn imports_from_directory(image: &[u8], optional: usize, opt_size: usize, n_sections: usize) -> (r: Result<
    Vec<String>,
    &'static str,
>)
    requires
        optional + opt_size <= image@.len(),
    ensures
        match (r, spec_imports_from_directory(image@, optional as int, opt_size as int, n_sections as nat)) {
            (Ok(v), Ok(sv)) => v@.len() == sv.len() && forall|i: int|
                0 <= i < sv.len() ==> #[trigger] v@[i]@ == ascii_chars(sv[i]),
            (Err(e), Err(se)) => e == se,
            _ => false,
        },
{
    let len = image.len();
    if optional > usize::MAX - 128 {
        return Err("offset overflow");
    }
    let dir = optional + 120;
    if dir + 8 > len {
        return Err("data directory out of bounds");
    }
    let import_rva = le32(image, dir);
    let import_size = le32(image, dir + 4);
    if import_rva == 0 || import_size == 0 {
        return Ok(Vec::new());
    }
    let table = optional + opt_size;
    if n_sections > usize::MAX / 40 {
        return Err("overflow");
    }
    let table_len = n_sections * 40;
    if table > usize::MAX - table_len {
        return Err("overflow");
    }
    if table + table_len > len {
        return Err("section table out of bounds");
    }
    let sections = read_sections(image, table, n_sections);
    let first = match rva_to_offset(&sections, import_rva) {
        Ok(o) => o,
        Err(e) => return Err(e),
    };
    import_names(image, &sections, first)
}

/// Parse the import table of a PE32+ image and return the imported DLL
/// names in import-directory order.
pub fn imports(image: &[u8]) -> (r: Result<Vec<String>, &'static str>)
    ensures
        match (r, spec_imports(image@)) {
            (Ok(v), Ok(sv)) => v@.len() == sv.len() && forall|i: int|
                0 <= i < sv.len() ==> #[trigger] v@[i]@ == ascii_chars(sv[i]),
            (Err(e), Err(se)) => e == se,
            _ => false,
        },
{
    let len = image.len();
    let e_lfanew = match read_u32(image, 0x3C) {
        Ok(v) => v as usize,
        Err(e) => return Err(e),
    };
    if e_lfanew > usize::MAX - 4 {
        return Err("offset overflow");
    }
    let sig_end = e_lfanew + 4;
    if sig_end > len {
        return Err("PE signature out of bounds");
    }
    if !(image[e_lfanew] == 0x50 && image[e_lfanew + 1] == 0x45 && image[e_lfanew + 2] == 0
        && image[e_lfanew + 3] == 0) {
        proof {
            let sig = image@.subrange(e_lfanew as int, sig_end as int);
            assert(sig[0] != 0x50u8 || sig[1] != 0x45u8 || sig[2] != 0u8 || sig[3] != 0u8);
            assert(sig != seq![0x50u8, 0x45u8, 0u8, 0u8]);
        }
        return Err("missing PE signature");
    }
    assert(image@.subrange(e_lfanew as int, sig_end as int) =~= seq![0x50u8, 0x45u8, 0u8, 0u8]);
    let coff = sig_end;
    if coff > usize::MAX - 2 {
        return Err("offset overflow");
    }
    let n_sections = match read_u16(image, coff + 2) {
        Ok(v) => v as usize,
        Err(e) => return Err(e),
    };
    if coff > usize::MAX - 16 {
        return Err("offset overflow");
    }
    let opt_size = match read_u16(image, coff + 16) {
        Ok(v) => v as usize,
        Err(e) => return Err(e),
    };
    if coff > usize::MAX - 20 {
        return Err("offset overflow");
    }
    let optional = coff + 20;
    if optional > usize::MAX - opt_size {
        return Err("offset overflow");
    }
    if optional + opt_size > len {
        return Err("optional header out of bounds");
    }
    let magic = match read_u16(image, optional) {
        Ok(v) => v,
        Err(e) => return Err(e),
    };
    if magic != 0x20B {
        return Err("not a PE32+ image (magic mismatch)");
    }
    imports_from_directory(image, optional, opt_size, n_sections)
}

/// A name as the reader returns it: ASCII without NUL bytes.
pub open spec fn clean_name(n: Seq<u8>) -> bool {
    &&& all_ascii(n)
    &&& forall|k: int| 0 <= k < n.len() ==> #[trigger] n[k] != 0
}

proof fn lemma_nul_from(buf: Seq<u8>, off: int)
    requires
        0 <= off,
    ensures
        off <= spec_nul_from(buf, off) || off > buf.len(),
        forall|k: int| off <= k < spec_nul_from(buf, off) && k < buf.len() ==> #[trigger] buf[k] != 0,
    decreases buf.len() - off,
{
    if off < buf.len() && buf[off] != 0 {
        lemma_nul_from(buf, off + 1);
    }
}

proof fn lemma_cstr_clean(buf: Seq<u8>, off: int)
    requires
        spec_read_cstr(buf, off) is Ok,
    ensures
        clean_name(spec_read_cstr(buf, off)->Ok_0),
{
    let end = spec_nul_from(buf, off);
    if off >= 0 {
        lemma_nul_from(buf, off);
    }
    let n = buf.subrange(off, end);
    assert forall|k: int| 0 <= k < n.len() implies #[trigger] n[k] != 0 by {
        assert(n[k] == buf[off + k]);
    }
}

proof fn lemma_import_names_clean(image: Seq<u8>, secs: Seq<Section>, off: int)
    ensures
        spec_import_names(image, secs, off) matches Ok(names) ==> forall|i: int|
            0 <= i < names.len() ==> clean_name(#[trigger] names[i]),
    decreases image.len() - off,
{
    if off + 20 <= usize::MAX && off + 20 <= image.len() && off >= 0 {
        let name_rva = le32_at(image, off + 12);
        if name_rva != 0 {
            if let Ok(name_off) = spec_rva_to_offset(secs, name_rva, 0) {
                if spec_read_cstr(image, name_off as int) is Ok {
                    lemma_cstr_clean(image, name_off as int);
                    lemma_import_names_clean(image, secs, off + 20);
                }
            }
        }
    }
}

/// Section `s` maps `rva`: it lies at or past the section's virtual
/// address and before its start plus the larger of its virtual and raw
/// sizes (addresses stop at `u32::MAX`).
pub open spec fn section_holds(s: Section, rva: u32) -> bool {
    let extent: int = if s.virtual_size >= s.size_of_raw_data { s.virtual_size as int } else { s.size_of_raw_data as int };
    &&& s.virtual_address <= rva
    &&& rva < s.virtual_address + extent
    &&& rva < u32::MAX
}

proof fn lemma_rva_search(secs: Seq<Section>, rva: u32, i: int, k: int)
    requires
        0 <= i <= k < secs.len(),
        section_holds(secs[k], rva),
        forall|j: int| i <= j < k ==> !section_holds(#[trigger] secs[j], rva),
    ensures
        spec_rva_to_offset(secs, rva, i) == spec_rva_to_offset(secs, rva, k),
    decreases k - i,
{
    if i < k {
        assert(!section_holds(secs[i], rva));
        lemma_rva_search(secs, rva, i + 1, k);
    }
}

proof fn lemma_rva_missing(secs: Seq<Section>, rva: u32, i: int)
    requires
        0 <= i <= secs.len(),
        forall|j: int| i <= j < secs.len() ==> !section_holds(#[trigger] secs[j], rva),
    ensures
        spec_rva_to_offset(secs, rva, i) == Err::<usize, &'static str>("rva not contained in any section"),
    decreases secs.len() - i,
{
    if i < secs.len() {
        assert(!section_holds(secs[i], rva));
        lemma_rva_missing(secs, rva, i + 1);
    }
}

/// An RVA maps through the first section that holds it, wherever that
/// section stands in the table: to that section's raw-data pointer plus the
/// RVA's distance from the section's virtual address (or "rva overflow" when
/// that offset does not fit a `usize`). An RVA no section holds is refused.
pub proof fn law_rva_maps_through_the_first_section_holding_it(secs: Seq<Section>, rva: u32, k: int)
    ensures
        0 <= k < secs.len() && section_holds(secs[k], rva) && (forall|j: int|
            0 <= j < k ==> !section_holds(#[trigger] secs[j], rva)) ==> spec_rva_to_offset(secs, rva, 0) == (if secs[k].pointer_to_raw_data + (rva - secs[k].virtual_address) <= usize::MAX {
            Ok::<usize, &'static str>((secs[k].pointer_to_raw_data + (rva - secs[k].virtual_address)) as usize)
        } else {
            Err("rva overflow")
        }),
        (forall|j: int| 0 <= j < secs.len() ==> !section_holds(#[trigger] secs[j], rva)) ==> spec_rva_to_offset(secs, rva, 0)
            == Err::<usize, &'static str>("rva not contained in any section"),
{
    if 0 <= k < secs.len() && section_holds(secs[k], rva) && (forall|j: int|
        0 <= j < k ==> !section_holds(#[trigger] secs[j], rva)) {
        lemma_rva_search(secs, rva, 0, k);
    }
    if forall|j: int| 0 <= j < secs.len() ==> !section_holds(#[trigger] secs[j], rva) {
        lemma_rva_missing(secs, rva, 0);
    }
}

/// Every name the reader returns is plain ASCII with no NUL byte.
pub proof fn law_imported_names_are_clean_ascii(image: Seq<u8>)
    ensures
        spec_imports(image) matches Ok(names) ==> forall|i: int| 0 <= i < names.len() ==> clean_name(#[trigger] names[i]),
{
    if let Ok(e_lfanew) = spec_read_u32(image, 0x3C) {
        let coff = e_lfanew as int + 4;
        if let Ok(n_sections) = spec_read_u16(image, coff + 2) {
            if let Ok(opt_size) = spec_read_u16(image, coff + 16) {
                let optional = coff + 20;
                let table = optional + opt_size;
                let secs = spec_sections(image, table, n_sections as nat);
                let import_rva = le32_at(image, optional + 120);
                if let Ok(first) = spec_rva_to_offset(secs, import_rva, 0) {
                    lemma_import_names_clean(image, secs, first as int);
                }
            }
        }
    }
}

} // verus!
