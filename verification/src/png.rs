//! Minimal PNG writer and reader for verification frames: 8-bit truecolor,
//! filter type 0 on every scanline, and a zlib stream made only of stored
//! (uncompressed) DEFLATE blocks. The reader accepts exactly that subset and
//! rejects anything else with a fixed diagnostic.
use vstd::prelude::*;
use crate::save::{spec_crc32, spec_crc_8bits, CRC32_POLY};

verus! {

/// Largest stored DEFLATE block.
pub const MAX_BLOCK: usize = 65535;

/// Adler-32 modulus.
pub const MOD_ADLER: u32 = 65521;

/// Stored blocks a buffer of `n` bytes is cut into (up to `MAX_BLOCK` bytes
/// each; an empty buffer still takes one block).
pub open spec fn spec_block_count(n: nat) -> nat {
    if n == 0 {
        1
    } else {
        ((n + 65534) / 65535) as nat
    }
}

/// Length of the zlib stream `zlib_store` makes of `n` bytes: a 2-byte
/// header, 5 header bytes per stored block, the data, a 4-byte checksum.
pub open spec fn spec_zlib_len(n: nat) -> nat {
    n + 5 * spec_block_count(n) + 6
}

/// The images PNG can hold as `encode_rgb` writes them: the IDAT chunk (the
/// zlib stream of the `(3 * width + 1) * height` scanline bytes) fits the
/// format's 32-bit chunk length.
pub open spec fn png_fits(width: u32, height: u32) -> bool {
    spec_zlib_len(((3 * width + 1) * height) as nat) <= u32::MAX
}

/// The eight-byte PNG signature.
pub open spec fn spec_signature() -> Seq<u8> {
    seq![0x89u8, 0x50u8, 0x4Eu8, 0x47u8, 0x0Du8, 0x0Au8, 0x1Au8, 0x0Au8]
}

pub open spec fn spec_kind_ihdr() -> Seq<u8> {
    seq![0x49u8, 0x48u8, 0x44u8, 0x52u8]
}

pub open spec fn spec_kind_idat() -> Seq<u8> {
    seq![0x49u8, 0x44u8, 0x41u8, 0x54u8]
}

pub open spec fn spec_kind_iend() -> Seq<u8> {
    seq![0x49u8, 0x45u8, 0x4Eu8, 0x44u8]
}

/// Big-endian bytes of a `u32`.
pub open spec fn be_bytes(v: u32) -> Seq<u8> {
    seq![((v >> 24u32) & 0xff) as u8, ((v >> 16u32) & 0xff) as u8, ((v >> 8u32) & 0xff) as u8, (v & 0xff) as u8]
}

/// Little-endian bytes of a `u16`.
pub open spec fn le16_bytes(v: u16) -> Seq<u8> {
    seq![(v & 0xff) as u8, ((v >> 8u16) & 0xff) as u8]
}

/// Big-endian `u32` at offset `i`.
pub open spec fn spec_be32(s: Seq<u8>, i: int) -> u32 {
    ((s[i] as u32) << 24u32) | ((s[i + 1] as u32) << 16u32) | ((s[i + 2] as u32) << 8u32) | (s[i + 3] as u32)
}

/// Little-endian `u16` at offset `i`.
pub open spec fn spec_le16(s: Seq<u8>, i: int) -> u16 {
    (s[i] as u16) | ((s[i + 1] as u16) << 8u16)
}

/// Adler-32 running pair `(a, b)` after `bytes`.
pub open spec fn spec_adler_pair(bytes: Seq<u8>) -> (u32, u32)
    decreases bytes.len(),
{
    if bytes.len() == 0 {
        (1u32, 0u32)
    } else {
        let (a, b) = spec_adler_pair(bytes.drop_last());
        let a2 = ((a + bytes.last()) % (MOD_ADLER as int)) as u32;
        let b2 = ((b + a2) % (MOD_ADLER as int)) as u32;
        (a2, b2)
    }
}

/// Adler-32 checksum of `bytes`.
pub open spec fn spec_adler32(bytes: Seq<u8>) -> u32 {
    let (a, b) = spec_adler_pair(bytes);
    (b << 16u32) | a
}

/// One chunk: big-endian length, kind, data, big-endian CRC of kind+data.
pub open spec fn spec_chunk(kind: Seq<u8>, data: Seq<u8>) -> Seq<u8> {
    be_bytes(data.len() as u32) + kind + data + be_bytes(spec_crc32(kind + data))
}

/// IHDR payload for an 8-bit truecolor image.
pub open spec fn spec_ihdr(width: u32, height: u32) -> Seq<u8> {
    be_bytes(width) + be_bytes(height) + seq![8u8, 2u8, 0u8, 0u8, 0u8]
}

/// Stored DEFLATE blocks of at most 65535 bytes each, the last one final.
pub open spec fn spec_stored_blocks(data: Seq<u8>) -> Seq<u8>
    decreases data.len(),
{
    if data.len() <= MAX_BLOCK {
        seq![1u8] + le16_bytes(data.len() as u16) + le16_bytes(!(data.len() as u16)) + data
    } else {
        seq![0u8] + le16_bytes(65535u16) + le16_bytes(0u16) + data.take(MAX_BLOCK as int)
            + spec_stored_blocks(data.skip(MAX_BLOCK as int))
    }
}

/// A zlib stream of stored blocks with an Adler-32 trailer.
pub open spec fn spec_zlib(data: Seq<u8>) -> Seq<u8> {
    seq![0x78u8, 0x01u8] + spec_stored_blocks(data) + be_bytes(spec_adler32(data))
}

/// Byte `i` of the filtered scanline buffer: each row is a zero filter
/// byte followed by R, G, B of every pixel.
pub open spec fn spec_raw_byte(width: u32, pixels: Seq<u32>, i: int) -> u8 {
    let stride = 3 * width + 1;
    let row = i / stride;
    let col = i % stride;
    if col == 0 {
        0u8
    } else {
        let p = pixels[row * width + (col - 1) / 3];
        let ch = (col - 1) % 3;
        if ch == 0 {
            ((p >> 16u32) & 0xff) as u8
        } else if ch == 1 {
            ((p >> 8u32) & 0xff) as u8
        } else {
            (p & 0xff) as u8
        }
    }
}

/// The filtered scanline buffer of an image.
pub open spec fn spec_raw(width: u32, height: u32, pixels: Seq<u32>) -> Seq<u8> {
    Seq::new(((3 * width + 1) * height) as nat, |i: int| spec_raw_byte(width, pixels, i))
}

/// The complete PNG file `encode_rgb` writes.
pub open spec fn spec_encode_png(width: u32, height: u32, pixels: Seq<u32>) -> Seq<u8> {
    spec_signature() + spec_chunk(spec_kind_ihdr(), spec_ihdr(width, height)) + spec_chunk(
        spec_kind_idat(),
        spec_zlib(spec_raw(width, height, pixels)),
    ) + spec_chunk(spec_kind_iend(), Seq::empty())
}

/// Why a PNG was refused.
#[derive(Clone, Copy, Debug, PartialEq, Eq, Structural)]
pub enum PngFault {
    BadSignature,
    TruncatedChunkHeader,
    ChunkLengthOverflow,
    TruncatedChunkData,
    ChunkCrcMismatch,
    MalformedIhdr,
    ZeroDimension,
    UnsupportedBitDepth,
    UnsupportedColorType,
    UnsupportedIhdrMethod,
    IdatBeforeIhdr,
    MissingIhdr,
    MissingIend,
    ZlibTooShort,
    ZlibMethod,
    ZlibDictionary,
    ZlibCheckBits,
    NoFinalBlock,
    UnsupportedBlockType,
    TruncatedBlockLength,
    BlockLengthMismatch,
    TruncatedBlockData,
    AdlerMismatch,
    SizeMismatch,
    UnsupportedFilter,
}

impl PngFault {
    /// The fixed diagnostic reported for this fault.
    pub fn message(self) -> (m: &'static str)
        ensures
            m == spec_fault_message(self),
    {
        match self {
            PngFault::BadSignature => "bad PNG signature",
            PngFault::TruncatedChunkHeader => "truncated chunk header",
            PngFault::ChunkLengthOverflow => "chunk length overflow",
            PngFault::TruncatedChunkData => "truncated chunk data/crc",
            PngFault::ChunkCrcMismatch => "chunk CRC mismatch",
            PngFault::MalformedIhdr => "malformed IHDR",
            PngFault::ZeroDimension => "zero image dimension",
            PngFault::UnsupportedBitDepth => "unsupported bit depth (only 8 supported)",
            PngFault::UnsupportedColorType => "unsupported color type (only truecolor=2 supported)",
            PngFault::UnsupportedIhdrMethod => "unsupported IHDR compression/filter/interlace method",
            PngFault::IdatBeforeIhdr => "IDAT before IHDR",
            PngFault::MissingIhdr => "missing IHDR",
            PngFault::MissingIend => "missing IEND",
            PngFault::ZlibTooShort => "zlib stream too short",
            PngFault::ZlibMethod => "unsupported zlib compression method (only DEFLATE=8 supported)",
            PngFault::ZlibDictionary => "unsupported zlib preset dictionary",
            PngFault::ZlibCheckBits => "zlib header check bits invalid",
            PngFault::NoFinalBlock => "truncated deflate stream (no final block)",
            PngFault::UnsupportedBlockType => "unsupported deflate block type (only stored=00 supported)",
            PngFault::TruncatedBlockLength => "truncated stored-block length header",
            PngFault::BlockLengthMismatch => "stored-block LEN/NLEN mismatch",
            PngFault::TruncatedBlockData => "truncated stored-block data",
            PngFault::AdlerMismatch => "zlib Adler-32 checksum mismatch",
            PngFault::SizeMismatch => "decompressed size does not match width/height",
            PngFault::UnsupportedFilter => "unsupported scanline filter (only None=0 supported)",
        }
    }
}

/// The diagnostic text of each fault.
pub open spec fn spec_fault_message(f: PngFault) -> &'static str {
    match f {
        PngFault::BadSignature => "bad PNG signature",
        PngFault::TruncatedChunkHeader => "truncated chunk header",
        PngFault::ChunkLengthOverflow => "chunk length overflow",
        PngFault::TruncatedChunkData => "truncated chunk data/crc",
        PngFault::ChunkCrcMismatch => "chunk CRC mismatch",
        PngFault::MalformedIhdr => "malformed IHDR",
        PngFault::ZeroDimension => "zero image dimension",
        PngFault::UnsupportedBitDepth => "unsupported bit depth (only 8 supported)",
        PngFault::UnsupportedColorType => "unsupported color type (only truecolor=2 supported)",
        PngFault::UnsupportedIhdrMethod => "unsupported IHDR compression/filter/interlace method",
        PngFault::IdatBeforeIhdr => "IDAT before IHDR",
        PngFault::MissingIhdr => "missing IHDR",
        PngFault::MissingIend => "missing IEND",
        PngFault::ZlibTooShort => "zlib stream too short",
        PngFault::ZlibMethod => "unsupported zlib compression method (only DEFLATE=8 supported)",
        PngFault::ZlibDictionary => "unsupported zlib preset dictionary",
        PngFault::ZlibCheckBits => "zlib header check bits invalid",
        PngFault::NoFinalBlock => "truncated deflate stream (no final block)",
        PngFault::UnsupportedBlockType => "unsupported deflate block type (only stored=00 supported)",
        PngFault::TruncatedBlockLength => "truncated stored-block length header",
        PngFault::BlockLengthMismatch => "stored-block LEN/NLEN mismatch",
        PngFault::TruncatedBlockData => "truncated stored-block data",
        PngFault::AdlerMismatch => "zlib Adler-32 checksum mismatch",
        PngFault::SizeMismatch => "decompressed size does not match width/height",
        PngFault::UnsupportedFilter => "unsupported scanline filter (only None=0 supported)",
    }
}

// ----------------------------------------------------------------------
// Checksums
// ----------------------------------------------------------------------

/// The CRC register update for one byte splits into a table lookup on the
/// low byte and a shift of the rest.
pub proof fn lemma_crc_byte_split(x: u32)
    ensures
        spec_crc_8bits(x) == spec_crc_8bits(x & 0xffu32) ^ (x >> 8u32),
{
    assert(spec_crc_8bits(x) == spec_crc_8bits(x & 0xffu32) ^ (x >> 8u32)) by (bit_vector);
}

/// Table of the CRC register update for every byte value.
pub fn build_crc32_table() -> (table: Vec<u32>)
    ensures
        table@.len() == 256,
        forall|n: int| 0 <= n < 256 ==> #[trigger] table@[n] == spec_crc_8bits(n as u32),
{
    let mut table: Vec<u32> = Vec::new();
    let mut n: u32 = 0;
    while n < 256
        invariant
            0 <= n <= 256,
            table@.len() == n,
            forall|k: int| 0 <= k < n ==> #[trigger] table@[k] == spec_crc_8bits(k as u32),
        decreases 256 - n,
    {
        let mut c = n;
        let mut k: u32 = 0;
        let ghost c0 = n;
        while k < 8
            invariant
                0 <= k <= 8,
                c == crate::save::spec_crc_bits_n(c0, k as nat),
            decreases 8 - k,
        {
            proof {
                let cc = c;
                assert((cc & 1u32 != 0) == (cc & 1u32 == 1u32)) by (bit_vector);
                assert(CRC32_POLY ^ (cc >> 1u32) == (cc >> 1u32) ^ CRC32_POLY) by (bit_vector);
            }
            if c & 1u32 != 0 {
                c = CRC32_POLY ^ (c >> 1u32);
            } else {
                c = c >> 1u32;
            }
            k = k + 1;
        }
        proof {
            reveal_with_fuel(crate::save::spec_crc_bits_n, 9);
        }
        table.push(c);
        n = n + 1;
    }
    table
}

/// CRC-32 (IEEE 802.3, reflected polynomial 0xEDB88320), table driven.
pub fn crc32(bytes: &[u8]) -> (r: u32)
    ensures
        r == spec_crc32(bytes@),
{
    let table = build_crc32_table();
    let mut crc: u32 = 0xFFFF_FFFF;
    let mut i: usize = 0;
    while i < bytes.len()
        invariant
            0 <= i <= bytes@.len(),
            table@.len() == 256,
            forall|n: int| 0 <= n < 256 ==> #[trigger] table@[n] == spec_crc_8bits(n as u32),
            crc == crate::save::spec_crc_register(0xFFFF_FFFFu32, bytes@.take(i as int)),
        decreases bytes@.len() - i,
    {
        let b = bytes[i];
        let idx = ((crc ^ (b as u32)) & 0xFFu32) as usize;
        proof {
            assert(bytes@.take(i as int + 1).drop_last() =~= bytes@.take(i as int));
            lemma_crc_byte_split(crc ^ (b as u32));
            assert((crc ^ (b as u32)) >> 8u32 == crc >> 8u32) by (bit_vector)
                requires b < 256;
            assert(((crc ^ (b as u32)) & 0xFFu32) < 256) by (bit_vector);
        }
        crc = table[idx] ^ (crc >> 8u32);
        i = i + 1;
    }
    assert(bytes@.take(bytes@.len() as int) =~= bytes@);
    assert(crc ^ 0xFFFF_FFFFu32 == !crc) by (bit_vector);
    crc ^ 0xFFFF_FFFFu32
}

/// Adler-32 checksum as used by the zlib trailer.
pub fn adler32(bytes: &[u8]) -> (r: u32)
    ensures
        r == spec_adler32(bytes@),
{
    let mut a: u32 = 1;
    let mut b: u32 = 0;
    let mut i: usize = 0;
    while i < bytes.len()
        invariant
            0 <= i <= bytes@.len(),
            (a, b) == spec_adler_pair(bytes@.take(i as int)),
            a < MOD_ADLER,
            b < MOD_ADLER,
        decreases bytes@.len() - i,
    {
        assert(bytes@.take(i as int + 1).drop_last() =~= bytes@.take(i as int));
        a = (a + bytes[i] as u32) % MOD_ADLER;
        b = (b + a) % MOD_ADLER;
        i = i + 1;
    }
    assert(bytes@.take(bytes@.len() as int) =~= bytes@);
    (b << 16u32) | a
}

// ----------------------------------------------------------------------
// Writer
// ----------------------------------------------------------------------

fn push_be32(out: &mut Vec<u8>, v: u32)
    ensures
        final(out)@ == old(out)@ + be_bytes(v),
{
    out.push(((v >> 24u32) & 0xff) as u8);
    out.push(((v >> 16u32) & 0xff) as u8);
    out.push(((v >> 8u32) & 0xff) as u8);
    out.push((v & 0xff) as u8);
    assert(final(out)@ =~= old(out)@ + be_bytes(v));
}

fn push_le16(out: &mut Vec<u8>, v: u16)
    ensures
        final(out)@ == old(out)@ + le16_bytes(v),
{
    out.push((v & 0xff) as u8);
    out.push(((v >> 8u16) & 0xff) as u8);
    assert(final(out)@ =~= old(out)@ + le16_bytes(v));
}

fn push_slice(out: &mut Vec<u8>, data: &[u8], from: usize, to: usize)
    requires
        from <= to <= data@.len(),
    ensures
        final(out)@ == old(out)@ + data@.subrange(from as int, to as int),
{
    let mut i = from;
    while i < to
        invariant
            from <= i <= to <= data@.len(),
            out@ == old(out)@ + data@.subrange(from as int, i as int),
        decreases to - i,
    {
        out.push(data[i]);
        assert(data@.subrange(from as int, i as int + 1) =~= data@.subrange(from as int, i as int).push(
            data@[i as int],
        ));
        i = i + 1;
    }
}

/// Append one chunk (length, kind, data, CRC of kind+data).
pub fn write_chunk(out: &mut Vec<u8>, kind: [u8; 4], data: &[u8])
    requires
        data@.len() <= u32::MAX,
    ensures
        final(out)@ == old(out)@ + spec_chunk(kind@, data@),
{
    push_be32(out, data.len() as u32);
    push_slice(out, &kind, 0, 4);
    push_slice(out, data, 0, data.len());
    let mut crc_input: Vec<u8> = Vec::new();
    push_slice(&mut crc_input, &kind, 0, 4);
    push_slice(&mut crc_input, data, 0, data.len());
    assert(kind@.subrange(0, 4) =~= kind@);
    assert(data@.subrange(0, data@.len() as int) =~= data@);
    let crc = crc32(crc_input.as_slice());
    push_be32(out, crc);
    assert(final(out)@ =~= old(out)@ + spec_chunk(kind@, data@));
}

/// Wrap `data` in a zlib stream (RFC 1950) of stored DEFLATE (RFC 1951)
/// blocks, each up to 65535 bytes.
pub fn zlib_store(data: &[u8]) -> (out: Vec<u8>)
    ensures
        out@ == spec_zlib(data@),
{
    let mut out: Vec<u8> = Vec::new();
    out.push(0x78);
    out.push(0x01);
    if data.len() == 0 {
        out.push(0x01);
        push_le16(&mut out, 0);
        push_le16(&mut out, 0xFFFF);
        proof {
            reveal_with_fuel(spec_stored_blocks, 1);
            assert(!(0u16) == 0xFFFFu16) by (bit_vector);
            assert(data@ =~= Seq::<u8>::empty());
        }
    } else {
        let mut offset: usize = 0;
        assert(data@.skip(0) =~= data@);
        while offset < data.len()
            invariant
                0 <= offset <= data@.len(),
                data@.len() > 0,
                offset < data@.len() ==> out@ + spec_stored_blocks(data@.skip(offset as int)) == seq![0x78u8, 0x01u8]
                    + spec_stored_blocks(data@),
                offset >= data@.len() ==> out@ == seq![0x78u8, 0x01u8] + spec_stored_blocks(data@),
            decreases data@.len() - offset,
        {
            let remaining = data.len() - offset;
            let block_len = if remaining < MAX_BLOCK { remaining } else { MAX_BLOCK };
            let is_final = offset + block_len == data.len();
            let ghost before = out@;
            let ghost rest = data@.skip(offset as int);
            out.push(if is_final { 0x01 } else { 0x00 });
            let len = block_len as u16;
            push_le16(&mut out, len);
            push_le16(&mut out, !len);
            push_slice(&mut out, data, offset, offset + block_len);
            proof {
                if is_final {
                    assert(rest.len() <= MAX_BLOCK);
                    assert(data@.subrange(offset as int, offset + block_len) =~= rest);
                    assert(out@ =~= before + spec_stored_blocks(rest));
                } else {
                    assert(rest.len() > MAX_BLOCK);
                    assert(block_len == 65535);
                    assert(!(65535u16) == 0u16) by (bit_vector);
                    assert(data@.subrange(offset as int, offset + block_len) =~= rest.take(MAX_BLOCK as int));
                    assert(rest.skip(MAX_BLOCK as int) =~= data@.skip(offset + block_len));
                    assert(out@ + spec_stored_blocks(data@.skip(offset + block_len)) =~= before
                        + spec_stored_blocks(rest));
                }
            }
            offset = offset + block_len;
        }
    }
    let adler = adler32(data);
    push_be32(&mut out, adler);
    assert(out@ =~= spec_zlib(data@));
    out
}

/// Row/column decomposition of an index into rows of `stride` bytes.
pub proof fn lemma_row_col(row: int, stride: int, col: int)
    requires
        0 <= row,
        0 <= col < stride,
    ensures
        (row * stride + col) / stride == row,
        (row * stride + col) % stride == col,
{
    vstd::arithmetic::div_mod::lemma_fundamental_div_mod_converse(row * stride + col, stride, row, col);
}

/// Index of pixel `(x, y)` lies inside a `width * height` image.
pub proof fn lemma_pixel_index(x: int, y: int, width: int, height: int)
    requires
        0 <= x < width,
        0 <= y < height,
    ensures
        0 <= y * width + x < width * height,
{
    vstd::arithmetic::mul::lemma_mul_inequality(y + 1, height, width);
    vstd::arithmetic::mul::lemma_mul_is_distributive_add_other_way(width, y, 1);
    vstd::arithmetic::mul::lemma_mul_nonnegative(y, width);
}

/// The stored blocks of `data` are exactly its bytes plus 5 header bytes
/// per block.
pub proof fn lemma_stored_blocks_exact_len(data: Seq<u8>)
    ensures
        spec_stored_blocks(data).len() == data.len() + 5 * spec_block_count(data.len()),
    decreases data.len(),
{
    let n = data.len();
    if n > MAX_BLOCK {
        lemma_stored_blocks_exact_len(data.skip(MAX_BLOCK as int));
        assert((n + 65534) / 65535 == 1 + ((n - 65535) + 65534) / 65535) by {
            vstd::arithmetic::div_mod::lemma_div_plus_one((n - 65535 + 65534) as int, 65535);
        }
    } else if n > 0 {
        assert((n + 65534) / 65535 == 1) by {
            vstd::arithmetic::div_mod::lemma_div_pos_is_pos((n + 65534) as int, 65535);
            vstd::arithmetic::div_mod::lemma_div_is_ordered((n + 65534) as int, 2 * 65535 - 1, 65535);
            vstd::arithmetic::div_mod::lemma_div_is_ordered(65535, (n + 65534) as int, 65535);
        }
    }
}

/// Stored blocks never more than double the data plus one header.
pub proof fn lemma_stored_blocks_len(data: Seq<u8>)
    ensures
        spec_stored_blocks(data).len() <= 2 * data.len() + 5,
        spec_stored_blocks(data).len() >= 5,
    decreases data.len(),
{
    if data.len() > MAX_BLOCK {
        lemma_stored_blocks_len(data.skip(MAX_BLOCK as int));
    }
}

/// Encode `width * height` pixels (row-major, `0x00RRGGBB` each) as an
/// 8-bit truecolor PNG.
pub fn encode_rgb(width: u32, height: u32, pixels: &[u32]) -> (png: Vec<u8>)
    requires
        pixels@.len() == width * height,
        png_fits(width, height),
    ensures
        png@ == spec_encode_png(width, height, pixels@),
{
    let stride: u64 = 3 * (width as u64) + 1;
    let ghost raw_spec = spec_raw(width, height, pixels@);
    let mut raw: Vec<u8> = Vec::new();
    let mut y: u32 = 0;
    proof {
        vstd::arithmetic::mul::lemma_mul_nonnegative(3 * width + 1, height as int);
        assert((3 * width + 1) * height <= u32::MAX);
    }
    while y < height
        invariant
            0 <= y <= height,
            stride == 3 * width + 1,
            pixels@.len() == width * height,
            (3 * width + 1) * height <= u32::MAX,
            png_fits(width, height),
            raw@.len() == y * stride,
            forall|i: int| 0 <= i < raw@.len() ==> #[trigger] raw@[i] == spec_raw_byte(width, pixels@, i),
        decreases height - y,
    {
        proof {
            vstd::arithmetic::mul::lemma_mul_inequality(y as int + 1, height as int, stride as int);
            vstd::arithmetic::mul::lemma_mul_is_distributive_add_other_way(stride as int, y as int, 1);
            vstd::arithmetic::mul::lemma_mul_is_commutative(stride as int, height as int);
            vstd::arithmetic::mul::lemma_mul_is_commutative(stride as int, y as int);
            lemma_row_col(y as int, stride as int, 0);
        }
        raw.push(0u8);
        let mut x: u32 = 0;
        while x < width
            invariant
                0 <= x <= width,
                0 <= y < height,
                stride == 3 * width + 1,
                pixels@.len() == width * height,
                (y + 1) * stride <= u32::MAX,
                raw@.len() == y * stride + 1 + 3 * x,
                forall|i: int| 0 <= i < raw@.len() ==> #[trigger] raw@[i] == spec_raw_byte(width, pixels@, i),
            decreases width - x,
        {
            proof {
                lemma_pixel_index(x as int, y as int, width as int, height as int);
                vstd::arithmetic::mul::lemma_mul_is_distributive_add_other_way(stride as int, y as int, 1);
                vstd::arithmetic::mul::lemma_mul_is_commutative(stride as int, y as int);
            }
            let n_pixels = pixels.len();
            assert((y as int) * (width as int) + (x as int) < n_pixels);
            let row_start: usize = (y as usize) * (width as usize);
            let p = pixels[row_start + (x as usize)];
            proof {
                let base = y * stride;
                lemma_row_col(y as int, stride as int, 1 + 3 * x);
                lemma_row_col(y as int, stride as int, 2 + 3 * x);
                lemma_row_col(y as int, stride as int, 3 + 3 * x);
                lemma_row_col(x as int, 3, 0);
                lemma_row_col(x as int, 3, 1);
                lemma_row_col(x as int, 3, 2);
                vstd::arithmetic::mul::lemma_mul_is_commutative(x as int, 3);
            }
            raw.push(((p >> 16u32) & 0xFF) as u8);
            raw.push(((p >> 8u32) & 0xFF) as u8);
            raw.push((p & 0xFF) as u8);
            x = x + 1;
        }
        y = y + 1;
    }
    proof {
        vstd::arithmetic::mul::lemma_mul_is_commutative(stride as int, height as int);
    }
    assert(raw@ =~= raw_spec);

    let mut out: Vec<u8> = Vec::new();
    out.push(0x89);
    out.push(0x50);
    out.push(0x4E);
    out.push(0x47);
    out.push(0x0D);
    out.push(0x0A);
    out.push(0x1A);
    out.push(0x0A);

    let mut ihdr: Vec<u8> = Vec::new();
    push_be32(&mut ihdr, width);
    push_be32(&mut ihdr, height);
    ihdr.push(8);
    ihdr.push(2);
    ihdr.push(0);
    ihdr.push(0);
    ihdr.push(0);
    assert(ihdr@ =~= spec_ihdr(width, height));
    write_chunk(&mut out, [0x49, 0x48, 0x44, 0x52], ihdr.as_slice());

    let zlib = zlib_store(raw.as_slice());
    proof {
        lemma_stored_blocks_exact_len(raw@);
    }
    write_chunk(&mut out, [0x49, 0x44, 0x41, 0x54], zlib.as_slice());

    let empty: Vec<u8> = Vec::new();
    write_chunk(&mut out, [0x49, 0x45, 0x4E, 0x44], empty.as_slice());
    proof {
        let k1: [u8; 4] = [0x49, 0x48, 0x44, 0x52];
        let k2: [u8; 4] = [0x49, 0x44, 0x41, 0x54];
        let k3: [u8; 4] = [0x49, 0x45, 0x4E, 0x44];
        assert(k1@ =~= spec_kind_ihdr());
        assert(k2@ =~= spec_kind_idat());
        assert(k3@ =~= spec_kind_iend());
        assert(empty@ =~= Seq::<u8>::empty());
    }
    assert(out@ =~= spec_encode_png(width, height, pixels@));
    out
}

// ----------------------------------------------------------------------
// Reader
// ----------------------------------------------------------------------

/// What the chunk scan has gathered: width, height, whether an IHDR was
/// seen, the concatenated IDAT payload, and whether IEND was reached.
pub type ScanState = (u32, u32, bool, Seq<u8>, bool);

/// Chunk-by-chunk scan from offset `off`. Each chunk's CRC is checked; IHDR
/// is validated and records the dimensions, IDAT data is appended (only
/// after an IHDR), IEND stops the scan, other chunks are skipped.
pub open spec fn spec_scan(png: Seq<u8>, off: int, w: u32, h: u32, have_ihdr: bool, idat: Seq<u8>) -> Result<ScanState, PngFault>
    decreases png.len() - off,
{
    if off < 0 || off >= png.len() {
        Ok((w, h, have_ihdr, idat, false))
    } else if off + 8 > png.len() {
        Err(PngFault::TruncatedChunkHeader)
    } else {
        let len = spec_be32(png, off) as int;
        let ds = off + 8;
        let de = ds + len;
        if de > usize::MAX {
            Err(PngFault::ChunkLengthOverflow)
        } else if de + 4 > png.len() {
            Err(PngFault::TruncatedChunkData)
        } else {
            let kind = png.subrange(off + 4, off + 8);
            let data = png.subrange(ds, de);
            if spec_crc32(kind + data) != spec_be32(png, de) {
                Err(PngFault::ChunkCrcMismatch)
            } else if kind == spec_kind_ihdr() {
                if data.len() != 13 {
                    Err(PngFault::MalformedIhdr)
                } else {
                    let nw = spec_be32(data, 0);
                    let nh = spec_be32(data, 4);
                    if nw == 0 || nh == 0 {
                        Err(PngFault::ZeroDimension)
                    } else if data[8] != 8 {
                        Err(PngFault::UnsupportedBitDepth)
                    } else if data[9] != 2 {
                        Err(PngFault::UnsupportedColorType)
                    } else if data[10] != 0 || data[11] != 0 || data[12] != 0 {
                        Err(PngFault::UnsupportedIhdrMethod)
                    } else {
                        spec_scan(png, de + 4, nw, nh, true, idat)
                    }
                }
            } else if kind == spec_kind_idat() {
                if !have_ihdr {
                    Err(PngFault::IdatBeforeIhdr)
                } else {
                    spec_scan(png, de + 4, w, h, have_ihdr, idat + data)
                }
            } else if kind == spec_kind_iend() {
                Ok((w, h, have_ihdr, idat, true))
            } else {
                spec_scan(png, de + 4, w, h, have_ihdr, idat)
            }
        }
    }
}

/// Stored DEFLATE blocks from position `pos` of `body`, appending to `out`
/// until a final block.
pub open spec fn spec_blocks(body: Seq<u8>, pos: int, out: Seq<u8>) -> Result<Seq<u8>, PngFault>
    decreases body.len() - pos,
{
    if pos < 0 || pos >= body.len() {
        Err(PngFault::NoFinalBlock)
    } else if body[pos] & 0xFEu8 != 0 {
        Err(PngFault::UnsupportedBlockType)
    } else if pos + 5 > body.len() {
        Err(PngFault::TruncatedBlockLength)
    } else if spec_le16(body, pos + 3) != !spec_le16(body, pos + 1) {
        Err(PngFault::BlockLengthMismatch)
    } else {
        let len = spec_le16(body, pos + 1) as int;
        if pos + 5 + len > body.len() {
            Err(PngFault::TruncatedBlockData)
        } else {
            let out2 = out + body.subrange(pos + 5, pos + 5 + len);
            if body[pos] & 1u8 != 0 {
                Ok(out2)
            } else {
                spec_blocks(body, pos + 5 + len, out2)
            }
        }
    }
}

/// Inflate a zlib stream made entirely of stored blocks.
pub open spec fn spec_inflate(z: Seq<u8>) -> Result<Seq<u8>, PngFault> {
    if z.len() < 6 {
        Err(PngFault::ZlibTooShort)
    } else if z[0] & 0x0Fu8 != 8 {
        Err(PngFault::ZlibMethod)
    } else if z[1] & 0x20u8 != 0 {
        Err(PngFault::ZlibDictionary)
    } else if (((z[0] as u16) << 8u16) | (z[1] as u16)) % 31 != 0 {
        Err(PngFault::ZlibCheckBits)
    } else {
        match spec_blocks(z.subrange(2, z.len() - 4), 0, Seq::empty()) {
            Err(f) => Err(f),
            Ok(out) => if spec_adler32(out) != spec_be32(z, z.len() - 4) {
                Err(PngFault::AdlerMismatch)
            } else {
                Ok(out)
            },
        }
    }
}

/// Pixel `i` read back from the scanline buffer.
pub open spec fn spec_pixel_at(raw: Seq<u8>, width: u32, i: int) -> u32 {
    let stride = 3 * width + 1;
    let base = (i / width as int) * stride + 1 + 3 * (i % width as int);
    ((raw[base] as u32) << 16u32) | ((raw[base + 1] as u32) << 8u32) | (raw[base + 2] as u32)
}

/// Every scanline's filter byte is 0 (None).
pub open spec fn spec_filters_none(raw: Seq<u8>, width: u32, height: u32) -> bool {
    forall|y: int| 0 <= y < height ==> #[trigger] raw[y * (3 * width + 1)] == 0
}

/// The decoded image.
pub open spec fn spec_decode_rgb(png: Seq<u8>) -> Result<(u32, u32, Seq<u32>), PngFault> {
    if png.len() < 8 || png.take(8) != spec_signature() {
        Err(PngFault::BadSignature)
    } else {
        match spec_scan(png, 8, 0, 0, false, Seq::empty()) {
            Err(f) => Err(f),
            Ok((w, h, have_ihdr, idat, have_iend)) => if !have_ihdr {
                Err(PngFault::MissingIhdr)
            } else if !have_iend {
                Err(PngFault::MissingIend)
            } else {
                match spec_inflate(idat) {
                    Err(f) => Err(f),
                    Ok(raw) => if raw.len() != (3 * w + 1) * h {
                        Err(PngFault::SizeMismatch)
                    } else if !spec_filters_none(raw, w, h) {
                        Err(PngFault::UnsupportedFilter)
                    } else {
                        Ok((w, h, Seq::new((w * h) as nat, |i: int| spec_pixel_at(raw, w, i))))
                    }
                }
            },
        }
    }
}

fn be32_at(s: &[u8], i: usize) -> (v: u32)
    requires
        i + 4 <= s@.len(),
    ensures
        v == spec_be32(s@, i as int),
{
    ((s[i] as u32) << 24u32) | ((s[i + 1] as u32) << 16u32) | ((s[i + 2] as u32) << 8u32) | (s[i + 3] as u32)
}

fn le16_at(s: &[u8], i: usize) -> (v: u16)
    requires
        i + 2 <= s@.len(),
    ensures
        v == spec_le16(s@, i as int),
{
    (s[i] as u16) | ((s[i + 1] as u16) << 8u16)
}

fn kind_is(png: &[u8], off: usize, k0: u8, k1: u8, k2: u8, k3: u8) -> (b: bool)
    requires
        off + 4 <= png@.len(),
    ensures
        b == (png@.subrange(off as int, off + 4) == seq![k0, k1, k2, k3]),
{
    let r = png[off] == k0 && png[off + 1] == k1 && png[off + 2] == k2 && png[off + 3] == k3;
    assert(r == (png@.subrange(off as int, off + 4) =~= seq![k0, k1, k2, k3]));
    r
}

/// Scan the chunks after the signature.
fn scan_chunks(png: &[u8]) -> (r: Result<(u32, u32, bool, Vec<u8>, bool), PngFault>)
    requires
        png@.len() >= 8,
    ensures
        match (r, spec_scan(png@, 8, 0, 0, false, Seq::empty())) {
            (Ok((w, h, hi, idat, he)), Ok((sw, sh, shi, sidat, she))) => w == sw && h == sh && hi == shi
                && idat@ == sidat && he == she,
            (Err(f), Err(sf)) => f == sf,
            _ => false,
        },
{
    let mut offset: usize = 8;
    let mut width: u32 = 0;
    let mut height: u32 = 0;
    let mut have_ihdr = false;
    let mut idat: Vec<u8> = Vec::new();
    let n = png.len();
    while offset < n
        invariant
            n == png@.len(),
            offset >= 8,
            spec_scan(png@, 8, 0, 0, false, Seq::empty()) == spec_scan(png@, offset as int, width, height, have_ihdr, idat@),
        decreases n - offset,
    {
        if n - offset < 8 {
            return Err(PngFault::TruncatedChunkHeader);
        }
        let len = be32_at(png, offset) as usize;
        let data_start = offset + 8;
        if len > usize::MAX - data_start {
            return Err(PngFault::ChunkLengthOverflow);
        }
        let data_end = data_start + len;
        if data_end > n - 4 {
            return Err(PngFault::TruncatedChunkData);
        }
        let mut crc_input: Vec<u8> = Vec::new();
        push_slice(&mut crc_input, png, offset + 4, offset + 8);
        push_slice(&mut crc_input, png, data_start, data_end);
        let stored_crc = be32_at(png, data_end);
        proof {
            assert(crc_input@ =~= png@.subrange(offset + 4, offset + 8) + png@.subrange(data_start as int, data_end as int));
        }
        if crc32(crc_input.as_slice()) != stored_crc {
            return Err(PngFault::ChunkCrcMismatch);
        }
        let ghost data = png@.subrange(data_start as int, data_end as int);
        if kind_is(png, offset + 4, 0x49, 0x48, 0x44, 0x52) {
            if len != 13 {
                return Err(PngFault::MalformedIhdr);
            }
            let nw = be32_at(png, data_start);
            let nh = be32_at(png, data_start + 4);
            proof {
                assert(spec_be32(data, 0) == nw);
                assert(spec_be32(data, 4) == nh);
            }
            if nw == 0 || nh == 0 {
                return Err(PngFault::ZeroDimension);
            }
            if png[data_start + 8] != 8 {
                return Err(PngFault::UnsupportedBitDepth);
            }
            if png[data_start + 9] != 2 {
                return Err(PngFault::UnsupportedColorType);
            }
            if png[data_start + 10] != 0 || png[data_start + 11] != 0 || png[data_start + 12] != 0 {
                return Err(PngFault::UnsupportedIhdrMethod);
            }
            width = nw;
            height = nh;
            have_ihdr = true;
        } else if kind_is(png, offset + 4, 0x49, 0x44, 0x41, 0x54) {
            if !have_ihdr {
                return Err(PngFault::IdatBeforeIhdr);
            }
            push_slice(&mut idat, png, data_start, data_end);
        } else if kind_is(png, offset + 4, 0x49, 0x45, 0x4E, 0x44) {
            return Ok((width, height, have_ihdr, idat, true));
        }
        offset = data_end + 4;
    }
    Ok((width, height, have_ihdr, idat, false))
}

/// Inflate a zlib stream (RFC 1950) made entirely of stored DEFLATE blocks;
/// anything else (a Huffman block, a preset dictionary, a length mismatch,
/// a bad Adler-32 trailer, a truncated stream) is refused.
pub fn inflate_stored(zlib: &[u8]) -> (r: Result<Vec<u8>, PngFault>)
    ensures
        match (r, spec_inflate(zlib@)) {
            (Ok(v), Ok(sv)) => v@ == sv,
            (Err(f), Err(sf)) => f == sf,
            _ => false,
        },
{
    let n = zlib.len();
    if n < 6 {
        return Err(PngFault::ZlibTooShort);
    }
    let cmf = zlib[0];
    let flg = zlib[1];
    if cmf & 0x0F != 8 {
        return Err(PngFault::ZlibMethod);
    }
    if flg & 0x20 != 0 {
        return Err(PngFault::ZlibDictionary);
    }
    if (((cmf as u16) << 8u16) | (flg as u16)) % 31 != 0 {
        return Err(PngFault::ZlibCheckBits);
    }
    let body_end = n - 4;
    let ghost body = zlib@.subrange(2, n - 4);
    let mut out: Vec<u8> = Vec::new();
    let mut pos: usize = 2;
    loop
        invariant_except_break
            spec_blocks(body, 0, Seq::empty()) == spec_blocks(body, pos - 2, out@),
        invariant
            n == zlib@.len(),
            n >= 6,
            body_end == n - 4,
            2 <= pos,
            body == zlib@.subrange(2, n - 4),
            zlib@[0] & 0x0Fu8 == 8,
            zlib@[1] & 0x20u8 == 0,
            (((zlib@[0] as u16) << 8u16) | (zlib@[1] as u16)) % 31 == 0,
        ensures
            spec_blocks(body, 0, Seq::empty()) == Ok::<Seq<u8>, PngFault>(out@),
        decreases body_end - pos,
    {
        if pos >= body_end {
            return Err(PngFault::NoFinalBlock);
        }
        let header = zlib[pos];
        assert(body[pos - 2] == header);
        if header & 0xFE != 0 {
            return Err(PngFault::UnsupportedBlockType);
        }
        if body_end - pos < 5 {
            return Err(PngFault::TruncatedBlockLength);
        }
        let len = le16_at(zlib, pos + 1);
        let nlen = le16_at(zlib, pos + 3);
        assert(spec_le16(body, pos - 2 + 1) == len);
        assert(spec_le16(body, pos - 2 + 3) == nlen);
        if nlen != !len {
            return Err(PngFault::BlockLengthMismatch);
        }
        let len = len as usize;
        if len > body_end - pos - 5 {
            return Err(PngFault::TruncatedBlockData);
        }
        push_slice(&mut out, zlib, pos + 5, pos + 5 + len);
        assert(zlib@.subrange(pos + 5, pos + 5 + len) =~= body.subrange(pos - 2 + 5, pos - 2 + 5 + len));
        pos = pos + 5 + len;
        if header & 1 != 0 {
            break;
        }
    }
    let stored_adler = be32_at(zlib, body_end);
    if adler32(out.as_slice()) != stored_adler {
        return Err(PngFault::AdlerMismatch);
    }
    Ok(out)
}

/// Read the pixels back out of a scanline buffer, refusing any scanline
/// whose filter byte is not 0.
fn extract_pixels(raw: &[u8], width: u32, height: u32) -> (r: Result<Vec<u32>, PngFault>)
    requires
        raw@.len() == (3 * width + 1) * height,
    ensures
        spec_filters_none(raw@, width, height) ==> (r matches Ok(v) && v@ == Seq::new(
            (width * height) as nat,
            |i: int| spec_pixel_at(raw@, width, i),
        )),
        !spec_filters_none(raw@, width, height) ==> r == Err::<Vec<u32>, PngFault>(PngFault::UnsupportedFilter),
{
    let ghost stride_i: int = 3 * width + 1;
    let mut pixels: Vec<u32> = Vec::new();
    let mut y: u32 = 0;
    let n = raw.len();
    while y < height
        invariant
            n == raw@.len(),
            raw@.len() == stride_i * height,
            stride_i == 3 * width + 1,
            0 <= y <= height,
            pixels@.len() == y * width,
            forall|k: int| 0 <= k < pixels@.len() ==> #[trigger] pixels@[k] == spec_pixel_at(raw@, width, k),
            forall|yy: int| 0 <= yy < y ==> #[trigger] raw@[yy * stride_i] == 0,
        decreases height - y,
    {
        proof {
            vstd::arithmetic::mul::lemma_mul_inequality(y as int + 1, height as int, stride_i);
            vstd::arithmetic::mul::lemma_mul_is_distributive_add_other_way(stride_i, y as int, 1);
            vstd::arithmetic::mul::lemma_mul_is_commutative(stride_i, height as int);
            vstd::arithmetic::mul::lemma_mul_is_commutative(stride_i, y as int);
            vstd::arithmetic::mul::lemma_mul_inequality(1, height as int, stride_i);
        }
        let stride: usize = 3 * (width as usize) + 1;
        let row_start: usize = (y as usize) * stride;
        if raw[row_start] != 0 {
            assert(raw@[y * stride_i] != 0);
            return Err(PngFault::UnsupportedFilter);
        }
        let mut x: u32 = 0;
        while x < width
            invariant
                n == raw@.len(),
                raw@.len() == stride_i * height,
                stride_i == 3 * width + 1,
                stride == stride_i,
                0 <= y < height,
                row_start == y * stride_i,
                row_start + stride_i <= raw@.len(),
                0 <= x <= width,
                pixels@.len() == y * width + x,
                forall|k: int| 0 <= k < pixels@.len() ==> #[trigger] pixels@[k] == spec_pixel_at(raw@, width, k),
            decreases width - x,
        {
            let base = row_start + 1 + 3 * (x as usize);
            let p = ((raw[base] as u32) << 16u32) | ((raw[base + 1] as u32) << 8u32) | (raw[base + 2] as u32);
            proof {
                lemma_row_col(y as int, width as int, x as int);
                vstd::arithmetic::mul::lemma_mul_is_commutative(y as int, stride_i);
                assert(spec_pixel_at(raw@, width, y * width + x) == p);
            }
            pixels.push(p);
            x = x + 1;
        }
        proof {
            vstd::arithmetic::mul::lemma_mul_is_distributive_add_other_way(width as int, y as int, 1);
            vstd::arithmetic::mul::lemma_mul_is_commutative(width as int, y as int);
            vstd::arithmetic::mul::lemma_mul_is_commutative(width as int, y as int + 1);
        }
        y = y + 1;
    }
    proof {
        vstd::arithmetic::mul::lemma_mul_is_commutative(width as int, height as int);
    }
    assert(pixels@ =~= Seq::new((width * height) as nat, |i: int| spec_pixel_at(raw@, width, i)));
    Ok(pixels)
}

/// Decode a PNG of the subset `encode_rgb` writes: 8-bit truecolor, filter
/// 0 on every scanline, stored-block zlib data. Every read is bounds
/// checked; anything outside the subset is refused with a fixed diagnostic.
pub fn decode_rgb(png: &[u8]) -> (r: Result<(u32, u32, Vec<u32>), &'static str>)
    ensures
        match (r, spec_decode_rgb(png@)) {
            (Ok((w, h, px)), Ok((sw, sh, spx))) => w == sw && h == sh && px@ == spx,
            (Err(m), Err(f)) => m == spec_fault_message(f),
            _ => false,
        },
{
    let r = decode_rgb_checked(png);
    match r {
        Ok(v) => Ok(v),
        Err(f) => Err(f.message()),
    }
}

fn decode_rgb_checked(png: &[u8]) -> (r: Result<(u32, u32, Vec<u32>), PngFault>)
    ensures
        match (r, spec_decode_rgb(png@)) {
            (Ok((w, h, px)), Ok((sw, sh, spx))) => w == sw && h == sh && px@ == spx,
            (Err(f), Err(sf)) => f == sf,
            _ => false,
        },
{
    if png.len() < 8 || !(png[0] == 0x89 && png[1] == 0x50 && png[2] == 0x4E && png[3] == 0x47 && png[4]
        == 0x0D && png[5] == 0x0A && png[6] == 0x1A && png[7] == 0x0A) {
        proof {
            if png@.len() >= 8 {
                assert(png@.take(8) != spec_signature() || (png@.take(8) =~= spec_signature()));
            }
        }
        return Err(PngFault::BadSignature);
    }
    assert(png@.take(8) =~= spec_signature());
    let (width, height, have_ihdr, idat, have_iend) = scan_chunks(png)?;
    if !have_ihdr {
        return Err(PngFault::MissingIhdr);
    }
    if !have_iend {
        return Err(PngFault::MissingIend);
    }
    let raw = inflate_stored(idat.as_slice())?;
    let stride: u128 = 3 * (width as u128) + 1;
    proof {
        vstd::arithmetic::mul::lemma_mul_upper_bound(
            stride as int,
            0x3_0000_0000int,
            height as int,
            0x1_0000_0000int,
        );
    }
    let expected_len: u128 = stride * (height as u128);
    if raw.len() as u128 != expected_len {
        return Err(PngFault::SizeMismatch);
    }
    let pixels = extract_pixels(raw.as_slice(), width, height)?;
    Ok((width, height, pixels))
}

// ----------------------------------------------------------------------
// Round trip
// ----------------------------------------------------------------------

proof fn lemma_be32_roundtrip(v: u32)
    ensures
        spec_be32(be_bytes(v), 0) == v,
{
    let b0 = ((v >> 24u32) & 0xff) as u8;
    let b1 = ((v >> 16u32) & 0xff) as u8;
    let b2 = ((v >> 8u32) & 0xff) as u8;
    let b3 = (v & 0xff) as u8;
    assert(((b0 as u32) << 24u32) | ((b1 as u32) << 16u32) | ((b2 as u32) << 8u32) | (b3 as u32) == v)
        by (bit_vector)
        requires
            b0 == ((v >> 24u32) & 0xff) as u8,
            b1 == ((v >> 16u32) & 0xff) as u8,
            b2 == ((v >> 8u32) & 0xff) as u8,
            b3 == (v & 0xff) as u8,
    ;
}

proof fn lemma_le16_roundtrip(v: u16)
    ensures
        spec_le16(le16_bytes(v), 0) == v,
{
    let b0 = (v & 0xff) as u8;
    let b1 = ((v >> 8u16) & 0xff) as u8;
    assert((b0 as u16) | ((b1 as u16) << 8u16) == v) by (bit_vector)
        requires
            b0 == (v & 0xff) as u8,
            b1 == ((v >> 8u16) & 0xff) as u8,
    ;
}

/// Reading back a chunk written by `spec_chunk` at offset `off` of `png`.
proof fn lemma_chunk_fields(png: Seq<u8>, off: int, kind: Seq<u8>, data: Seq<u8>)
    requires
        0 <= off,
        off + 12 + data.len() <= png.len(),
        kind.len() == 4,
        data.len() <= u32::MAX,
        png.subrange(off, off + 12 + data.len()) == spec_chunk(kind, data),
    ensures
        spec_be32(png, off) == data.len(),
        png.subrange(off + 4, off + 8) == kind,
        png.subrange(off + 8, off + 8 + data.len()) == data,
        spec_be32(png, off + 8 + data.len()) == spec_crc32(kind + data),
{
    let c = spec_chunk(kind, data);
    let n = data.len() as int;
    let lb = be_bytes(n as u32);
    let cb = be_bytes(spec_crc32(kind + data));
    assert(c.len() == 12 + n);
    assert forall|k: int| 0 <= k < 12 + n implies png[off + k] == #[trigger] c[k] by {
        assert(png.subrange(off, off + 12 + n)[k] == png[off + k]);
    }
    assert(png[off] == c[0] && c[0] == lb[0]);
    assert(png[off + 1] == c[1] && c[1] == lb[1]);
    assert(png[off + 2] == c[2] && c[2] == lb[2]);
    assert(png[off + 3] == c[3] && c[3] == lb[3]);
    lemma_be32_roundtrip(n as u32);
    assert(png.subrange(off + 4, off + 8) =~= kind) by {
        assert forall|k: int| 0 <= k < 4 implies png.subrange(off + 4, off + 8)[k] == kind[k] by {
            assert(png[off + 4 + k] == c[4 + k]);
        }
    }
    assert(png.subrange(off + 8, off + 8 + n) =~= data) by {
        assert forall|k: int| 0 <= k < n implies png.subrange(off + 8, off + 8 + n)[k] == data[k] by {
            assert(png[off + 8 + k] == c[8 + k]);
        }
    }
    let e = off + 8 + n;
    assert(png[e] == c[8 + n] && c[8 + n] == cb[0]);
    assert(png[e + 1] == c[9 + n] && c[9 + n] == cb[1]);
    assert(png[e + 2] == c[10 + n] && c[10 + n] == cb[2]);
    assert(png[e + 3] == c[11 + n] && c[11 + n] == cb[3]);
    lemma_be32_roundtrip(spec_crc32(kind + data));
}

/// Stored blocks placed after any prefix inflate back to their data.
proof fn lemma_blocks_roundtrip(prefix: Seq<u8>, d: Seq<u8>, out: Seq<u8>)
    ensures
        spec_blocks(prefix + spec_stored_blocks(d), prefix.len() as int, out) == Ok::<Seq<u8>, PngFault>(out + d),
    decreases d.len(),
{
    let body = prefix + spec_stored_blocks(d);
    let pos = prefix.len() as int;
    let sb = spec_stored_blocks(d);
    lemma_stored_blocks_len(d);
    assert forall|k: int| 0 <= k < sb.len() implies body[pos + k] == #[trigger] sb[k] by {}
    if d.len() <= MAX_BLOCK {
        let len = d.len() as u16;
        assert(len as int == d.len());
        assert(1u8 & 0xFEu8 == 0u8) by (bit_vector);
        assert(1u8 & 1u8 != 0u8) by (bit_vector);
        let l = le16_bytes(len);
        let nl = le16_bytes(!len);
        assert(body[pos + 1] == l[0] && body[pos + 2] == l[1]);
        assert(body[pos + 3] == nl[0] && body[pos + 4] == nl[1]);
        lemma_le16_roundtrip(len);
        lemma_le16_roundtrip(!len);
        assert(spec_le16(body, pos + 1) == spec_le16(l, 0));
        assert(spec_le16(body, pos + 3) == spec_le16(nl, 0));
        assert(body.subrange(pos + 5, pos + 5 + d.len()) =~= d) by {
            assert forall|k: int| 0 <= k < d.len() implies body.subrange(pos + 5, pos + 5 + d.len())[k] == d[k] by {
                assert(body[pos + 5 + k] == sb[5 + k]);
            }
        }
    } else {
        let head = d.take(MAX_BLOCK as int);
        let tail = d.skip(MAX_BLOCK as int);
        assert(0u8 & 0xFEu8 == 0u8) by (bit_vector);
        assert(0u8 & 1u8 == 0u8) by (bit_vector);
        assert(!65535u16 == 0u16) by (bit_vector);
        let l = le16_bytes(65535u16);
        let nl = le16_bytes(0u16);
        assert(body[pos + 1] == l[0] && body[pos + 2] == l[1]);
        assert(body[pos + 3] == nl[0] && body[pos + 4] == nl[1]);
        lemma_le16_roundtrip(65535u16);
        lemma_le16_roundtrip(0u16);
        assert(spec_le16(body, pos + 1) == spec_le16(l, 0));
        assert(spec_le16(body, pos + 3) == spec_le16(nl, 0));
        assert(body.subrange(pos + 5, pos + 5 + 65535) =~= head) by {
            assert forall|k: int| 0 <= k < 65535 implies body.subrange(pos + 5, pos + 5 + 65535)[k] == head[k] by {
                assert(body[pos + 5 + k] == sb[5 + k]);
            }
        }
        let prefix2 = prefix + (seq![0u8] + le16_bytes(65535u16) + le16_bytes(0u16) + head);
        assert(body =~= prefix2 + spec_stored_blocks(tail));
        assert(prefix2.len() == pos + 5 + 65535);
        lemma_blocks_roundtrip(prefix2, tail, out + head);
        assert(out + head + tail =~= out + d);
    }
}

/// A zlib stream of stored blocks inflates back to its data.
proof fn lemma_inflate_roundtrip(data: Seq<u8>)
    ensures
        spec_inflate(spec_zlib(data)) == Ok::<Seq<u8>, PngFault>(data),
{
    let z = spec_zlib(data);
    let sb = spec_stored_blocks(data);
    lemma_stored_blocks_len(data);
    assert(z.len() == 6 + sb.len());
    assert(z[0] == 0x78u8 && z[1] == 0x01u8);
    assert(0x78u8 & 0x0Fu8 == 8u8) by (bit_vector);
    assert(0x01u8 & 0x20u8 == 0u8) by (bit_vector);
    assert((((0x78u8 as u16) << 8u16) | (0x01u8 as u16)) % 31 == 0) by (bit_vector);
    assert(z.subrange(2, z.len() - 4) =~= Seq::<u8>::empty() + sb);
    lemma_blocks_roundtrip(Seq::empty(), data, Seq::empty());
    assert(Seq::<u8>::empty() + data =~= data);
    let ab = be_bytes(spec_adler32(data));
    let e = z.len() - 4;
    assert(z[e] == ab[0] && z[e + 1] == ab[1] && z[e + 2] == ab[2] && z[e + 3] == ab[3]);
    lemma_be32_roundtrip(spec_adler32(data));
}

/// Pixel `i` read back from the encoded scanline buffer is the low 24 bits
/// of the pixel that was written.
proof fn lemma_pixel_roundtrip(width: u32, height: u32, pixels: Seq<u32>, i: int)
    requires
        width > 0,
        pixels.len() == width * height,
        0 <= i < width * height,
    ensures
        spec_pixel_at(spec_raw(width, height, pixels), width, i) == pixels[i] & 0xFF_FFFFu32,
{
    let w = width as int;
    let stride = 3 * w + 1;
    let raw = spec_raw(width, height, pixels);
    let row = i / w;
    let col = i % w;
    vstd::arithmetic::div_mod::lemma_fundamental_div_mod(i, w);
    assert(0 <= row < height) by {
        vstd::arithmetic::div_mod::lemma_div_pos_is_pos(i, w);
        vstd::arithmetic::div_mod::lemma_div_is_ordered(i, w * height - 1, w);
        vstd::arithmetic::mul::lemma_mul_is_commutative(w, height as int);
        vstd::arithmetic::div_mod::lemma_div_multiples_vanish_fancy(height as int - 1, w - 1, w);
        vstd::arithmetic::mul::lemma_mul_is_distributive_sub(w, height as int, 1);
    }
    let base = row * stride + 1 + 3 * col;
    assert(base + 2 < raw.len()) by {
        vstd::arithmetic::mul::lemma_mul_inequality(row + 1, height as int, stride);
        vstd::arithmetic::mul::lemma_mul_is_distributive_add_other_way(stride, row, 1);
        vstd::arithmetic::mul::lemma_mul_is_commutative(stride, height as int);
    }
    assert(0 <= base) by {
        vstd::arithmetic::mul::lemma_mul_nonnegative(row, stride);
    }
    let p = pixels[i];
    lemma_row_col(row, stride, 1 + 3 * col);
    lemma_row_col(row, stride, 2 + 3 * col);
    lemma_row_col(row, stride, 3 + 3 * col);
    lemma_row_col(col, 3, 0);
    lemma_row_col(col, 3, 1);
    lemma_row_col(col, 3, 2);
    vstd::arithmetic::mul::lemma_mul_is_commutative(col, 3);
    vstd::arithmetic::mul::lemma_mul_is_commutative(row, w);
    assert(raw[base] == ((p >> 16u32) & 0xff) as u8);
    assert(raw[base + 1] == ((p >> 8u32) & 0xff) as u8);
    assert(raw[base + 2] == (p & 0xff) as u8);
    let r = ((p >> 16u32) & 0xff) as u8;
    let g = ((p >> 8u32) & 0xff) as u8;
    let b = (p & 0xff) as u8;
    assert(((r as u32) << 16u32) | ((g as u32) << 8u32) | (b as u32) == p & 0xFF_FFFFu32) by (bit_vector)
        requires
            r == ((p >> 16u32) & 0xff) as u8,
            g == ((p >> 8u32) & 0xff) as u8,
            b == (p & 0xff) as u8,
    ;
}

proof fn lemma_kinds_distinct()
    ensures
        spec_kind_idat() != spec_kind_ihdr(),
        spec_kind_iend() != spec_kind_ihdr(),
        spec_kind_iend() != spec_kind_idat(),
{
    assert(spec_kind_idat()[1] != spec_kind_ihdr()[1]);
    assert(spec_kind_iend()[1] != spec_kind_ihdr()[1]);
    assert(spec_kind_iend()[1] != spec_kind_idat()[1]);
}

/// Scan step over the IHDR chunk `encode_rgb` writes.
proof fn lemma_scan_step_ihdr(png: Seq<u8>, off: int, width: u32, height: u32, idat: Seq<u8>)
    requires
        0 <= off,
        off + 25 <= png.len() <= usize::MAX,
        width > 0,
        height > 0,
        png.subrange(off, off + 25) == spec_chunk(spec_kind_ihdr(), spec_ihdr(width, height)),
    ensures
        spec_scan(png, off, 0, 0, false, idat) == spec_scan(png, off + 25, width, height, true, idat),
{
    let ihdr = spec_ihdr(width, height);
    assert(ihdr.len() == 13);
    lemma_chunk_fields(png, off, spec_kind_ihdr(), ihdr);
    let wb = be_bytes(width);
    let hb = be_bytes(height);
    assert(ihdr[0] == wb[0] && ihdr[1] == wb[1] && ihdr[2] == wb[2] && ihdr[3] == wb[3]);
    assert(ihdr[4] == hb[0] && ihdr[5] == hb[1] && ihdr[6] == hb[2] && ihdr[7] == hb[3]);
    lemma_be32_roundtrip(width);
    lemma_be32_roundtrip(height);
    assert(spec_be32(ihdr, 0) == width);
    assert(spec_be32(ihdr, 4) == height);
}

/// Scan step over an IDAT chunk once the header has been seen.
proof fn lemma_scan_step_idat(png: Seq<u8>, off: int, z: Seq<u8>, width: u32, height: u32, idat: Seq<u8>)
    requires
        0 <= off,
        off + 12 + z.len() <= png.len() <= usize::MAX,
        z.len() <= u32::MAX,
        png.subrange(off, off + 12 + z.len()) == spec_chunk(spec_kind_idat(), z),
    ensures
        spec_scan(png, off, width, height, true, idat) == spec_scan(
            png,
            off + 12 + z.len(),
            width,
            height,
            true,
            idat + z,
        ),
{
    lemma_chunk_fields(png, off, spec_kind_idat(), z);
    lemma_kinds_distinct();
}

/// Scan step over the closing IEND chunk.
proof fn lemma_scan_step_iend(png: Seq<u8>, off: int, width: u32, height: u32, idat: Seq<u8>)
    requires
        0 <= off,
        off + 12 <= png.len() <= usize::MAX,
        png.subrange(off, off + 12) == spec_chunk(spec_kind_iend(), Seq::empty()),
    ensures
        spec_scan(png, off, width, height, true, idat) == Ok::<ScanState, PngFault>((width, height, true, idat, true)),
{
    lemma_chunk_fields(png, off, spec_kind_iend(), Seq::empty());
    lemma_kinds_distinct();
}

/// The chunk scan of an encoded image finds its dimensions, its zlib
/// stream, and the closing IEND.
proof fn lemma_scan_encoded(width: u32, height: u32, pixels: Seq<u32>)
    requires
        width > 0,
        height > 0,
        pixels.len() == width * height,
        png_fits(width, height),
        spec_encode_png(width, height, pixels).len() <= usize::MAX,
    ensures
        spec_scan(spec_encode_png(width, height, pixels), 8, 0, 0, false, Seq::empty()) == Ok::<ScanState, PngFault>(
            (width, height, true, spec_zlib(spec_raw(width, height, pixels)), true),
        ),
{
    let png = spec_encode_png(width, height, pixels);
    let raw = spec_raw(width, height, pixels);
    let z = spec_zlib(raw);
    let c1 = spec_chunk(spec_kind_ihdr(), spec_ihdr(width, height));
    let c2 = spec_chunk(spec_kind_idat(), z);
    let c3 = spec_chunk(spec_kind_iend(), Seq::empty());
    vstd::arithmetic::mul::lemma_mul_nonnegative(3 * width + 1, height as int);
    lemma_stored_blocks_exact_len(raw);
    assert(z.len() <= u32::MAX);
    let o2: int = 33int;
    let o3: int = o2 + 12 + z.len();
    assert(png =~= spec_signature() + c1 + c2 + c3);
    assert(png.subrange(8, o2) =~= c1);
    assert(png.subrange(o2, o3) =~= c2);
    assert(png.subrange(o3, o3 + 12) =~= c3);
    lemma_scan_step_ihdr(png, 8, width, height, Seq::empty());
    lemma_scan_step_idat(png, o2, z, width, height, Seq::empty());
    assert(Seq::<u8>::empty() + z =~= z);
    lemma_scan_step_iend(png, o3, width, height, z);
}

/// Decoding what `encode_rgb` wrote gives back the dimensions and the
/// pixels, each reduced to its low 24 bits (`0x00RRGGBB`), for every
/// non-empty image the format can hold whose encoding fits in memory.
pub proof fn law_decode_encode_png_roundtrip(width: u32, height: u32, pixels: Seq<u32>)
    requires
        width > 0,
        height > 0,
        pixels.len() == width * height,
        png_fits(width, height),
        spec_encode_png(width, height, pixels).len() <= usize::MAX,
    ensures
        spec_decode_rgb(spec_encode_png(width, height, pixels)) == Ok::<(u32, u32, Seq<u32>), PngFault>(
            (width, height, pixels.map_values(|p: u32| p & 0xFF_FFFFu32)),
        ),
{
    let png = spec_encode_png(width, height, pixels);
    let raw = spec_raw(width, height, pixels);
    assert(png.take(8) =~= spec_signature());
    lemma_scan_encoded(width, height, pixels);
    lemma_inflate_roundtrip(raw);
    let stride = 3 * width + 1;
    assert(spec_filters_none(raw, width, height)) by {
        assert forall|y: int| 0 <= y < height implies #[trigger] raw[y * (3 * width + 1)] == 0 by {
            lemma_row_col(y, stride, 0);
            vstd::arithmetic::mul::lemma_mul_inequality(y + 1, height as int, stride);
            vstd::arithmetic::mul::lemma_mul_is_distributive_add_other_way(stride, y, 1);
            vstd::arithmetic::mul::lemma_mul_is_commutative(stride, height as int);
            vstd::arithmetic::mul::lemma_mul_is_commutative(stride, y);
            vstd::arithmetic::mul::lemma_mul_nonnegative(y, stride);
        }
    }
    let decoded = Seq::new((width * height) as nat, |i: int| spec_pixel_at(raw, width, i));
    assert forall|i: int| 0 <= i < width * height implies decoded[i] == pixels.map_values(
        |p: u32| p & 0xFF_FFFFu32,
    )[i] by {
        lemma_pixel_roundtrip(width, height, pixels, i);
    }
    assert(decoded =~= pixels.map_values(|p: u32| p & 0xFF_FFFFu32));
}

} // verus!
