//! FNV-1a 64-bit hashing, used to fingerprint framebuffers and simulation
//! state for determinism checks. Plain byte folding, no allocation.
use vstd::prelude::*;

verus! {

pub const OFFSET_BASIS: u64 = 0xcbf2_9ce4_8422_2325;

pub const PRIME: u64 = 0x0000_0100_0000_01b3;

/// One FNV-1a step: xor the byte in, then multiply by the prime modulo 2^64.
pub open spec fn spec_fold_byte(hash: u64, byte: u8) -> u64 {
    vstd::wrapping::u64_specs::wrapping_mul(hash ^ (byte as u64), PRIME)
}

/// FNV-1a state after folding every byte of `bytes`, in order, into `hash`.
pub open spec fn spec_fold(hash: u64, bytes: Seq<u8>) -> u64
    decreases bytes.len(),
{
    if bytes.len() == 0 {
        hash
    } else {
        spec_fold_byte(spec_fold(hash, bytes.drop_last()), bytes.last())
    }
}

/// FNV-1a 64 of a byte sequence.
pub open spec fn spec_fnv1a64(bytes: Seq<u8>) -> u64 {
    spec_fold(OFFSET_BASIS, bytes)
}

/// The four little-endian bytes of a `u32`.
pub open spec fn le_bytes_u32(v: u32) -> Seq<u8> {
    seq![
        (v & 0xff) as u8,
        ((v >> 8u32) & 0xff) as u8,
        ((v >> 16u32) & 0xff) as u8,
        ((v >> 24u32) & 0xff) as u8,
    ]
}

/// The two little-endian bytes of a `u16`.
pub open spec fn le_bytes_u16(v: u16) -> Seq<u8> {
    seq![(v & 0xff) as u8, ((v >> 8u16) & 0xff) as u8]
}

/// The eight little-endian bytes of a `u64`.
pub open spec fn le_bytes_u64(v: u64) -> Seq<u8> {
    seq![
        (v & 0xff) as u8,
        ((v >> 8u64) & 0xff) as u8,
        ((v >> 16u64) & 0xff) as u8,
        ((v >> 24u64) & 0xff) as u8,
        ((v >> 32u64) & 0xff) as u8,
        ((v >> 40u64) & 0xff) as u8,
        ((v >> 48u64) & 0xff) as u8,
        ((v >> 56u64) & 0xff) as u8,
    ]
}

/// Concatenated little-endian bytes of a sequence of words.
pub open spec fn le_bytes_of_words(words: Seq<u32>) -> Seq<u8>
    decreases words.len(),
{
    if words.len() == 0 {
        Seq::empty()
    } else {
        le_bytes_of_words(words.drop_last()) + le_bytes_u32(words.last())
    }
}

/// Folding a concatenation is folding the second part into the result of
/// folding the first.
pub proof fn lemma_fold_append(hash: u64, a: Seq<u8>, b: Seq<u8>)
    ensures
        spec_fold(hash, a + b) == spec_fold(spec_fold(hash, a), b),
    decreases b.len(),
{
    if b.len() == 0 {
        assert(a + b =~= a);
    } else {
        lemma_fold_append(hash, a, b.drop_last());
        assert((a + b).drop_last() =~= a + b.drop_last());
        assert((a + b).last() == b.last());
    }
}

fn fold_byte(hash: u64, byte: u8) -> (r: u64)
    ensures
        r == spec_fold_byte(hash, byte),
{
    (hash ^ (byte as u64)).wrapping_mul(PRIME)
}

fn fold_bytes(hash: u64, bytes: &[u8]) -> (r: u64)
    ensures
        r == spec_fold(hash, bytes@),
{
    let mut h = hash;
    let mut i: usize = 0;
    while i < bytes.len()
        invariant
            0 <= i <= bytes.len(),
            h == spec_fold(hash, bytes@.take(i as int)),
        decreases bytes.len() - i,
    {
        assert(bytes@.take(i as int + 1).drop_last() =~= bytes@.take(i as int));
        h = fold_byte(h, bytes[i]);
        i = i + 1;
    }
    assert(bytes@.take(i as int) =~= bytes@);
    h
}

/// Allocation-free streaming FNV-1a writer for deterministic state digests.
#[derive(Clone, Copy, Debug)]
pub struct Hasher64(u64);

impl View for Hasher64 {
    type V = u64;

    closed spec fn view(&self) -> u64 {
        self.0
    }
}

impl Default for Hasher64 {
    fn default() -> (h: Hasher64)
        ensures
            h@ == OFFSET_BASIS,
    {
        Hasher64(OFFSET_BASIS)
    }
}

impl Hasher64 {
    pub fn write_u8(&mut self, value: u8)
        ensures
            final(self)@ == spec_fold(old(self)@, seq![value]),
    {
        proof {
            reveal_with_fuel(spec_fold, 2);
            assert(seq![value].drop_last() =~= Seq::<u8>::empty());
        }
        self.0 = fold_byte(self.0, value);
    }

    pub fn write_bool(&mut self, value: bool)
        ensures
            final(self)@ == spec_fold(old(self)@, seq![if value { 1u8 } else { 0u8 }]),
    {
        self.write_u8(if value { 1 } else { 0 });
    }

    pub fn write_u16(&mut self, value: u16)
        ensures
            final(self)@ == spec_fold(old(self)@, le_bytes_u16(value)),
    {
        let bytes: [u8; 2] = [(value & 0xff) as u8, ((value >> 8u16) & 0xff) as u8];
        assert(bytes@ =~= le_bytes_u16(value));
        self.write_bytes(&bytes);
    }

    pub fn write_u32(&mut self, value: u32)
        ensures
            final(self)@ == spec_fold(old(self)@, le_bytes_u32(value)),
    {
        let bytes: [u8; 4] = u32_le_bytes(value);
        self.write_bytes(&bytes);
    }

    pub fn write_u64(&mut self, value: u64)
        ensures
            final(self)@ == spec_fold(old(self)@, le_bytes_u64(value)),
    {
        let bytes: [u8; 8] = [
            (value & 0xff) as u8,
            ((value >> 8u64) & 0xff) as u8,
            ((value >> 16u64) & 0xff) as u8,
            ((value >> 24u64) & 0xff) as u8,
            ((value >> 32u64) & 0xff) as u8,
            ((value >> 40u64) & 0xff) as u8,
            ((value >> 48u64) & 0xff) as u8,
            ((value >> 56u64) & 0xff) as u8,
        ];
        assert(bytes@ =~= le_bytes_u64(value));
        self.write_bytes(&bytes);
    }

    pub fn write_bytes(&mut self, bytes: &[u8])
        ensures
            final(self)@ == spec_fold(old(self)@, bytes@),
    {
        self.0 = fold_bytes(self.0, bytes);
    }

    pub fn finish(self) -> (h: u64)
        ensures
            h == self@,
    {
        self.0
    }
}

/// The little-endian bytes of `value` as an array.
pub fn u32_le_bytes(value: u32) -> (b: [u8; 4])
    ensures
        b@ == le_bytes_u32(value),
{
    let b: [u8; 4] = [
        (value & 0xff) as u8,
        ((value >> 8u32) & 0xff) as u8,
        ((value >> 16u32) & 0xff) as u8,
        ((value >> 24u32) & 0xff) as u8,
    ];
    assert(b@ =~= le_bytes_u32(value));
    b
}

/// FNV-1a over raw bytes.
pub fn fnv1a64(bytes: &[u8]) -> (h: u64)
    ensures
        h == spec_fnv1a64(bytes@),
{
    fold_bytes(OFFSET_BASIS, bytes)
}

/// FNV-1a over a slice of `u32`s, each folded in as 4 little-endian bytes,
/// without building an intermediate byte buffer.
pub fn hash_u32s(words: &[u32]) -> (h: u64)
    ensures
        h == spec_fnv1a64(le_bytes_of_words(words@)),
{
    let mut hash = OFFSET_BASIS;
    let mut i: usize = 0;
    while i < words.len()
        invariant
            0 <= i <= words.len(),
            hash == spec_fold(OFFSET_BASIS, le_bytes_of_words(words@.take(i as int))),
        decreases words.len() - i,
    {
        let bytes = u32_le_bytes(words[i]);
        proof {
            assert(words@.take(i as int + 1).drop_last() =~= words@.take(i as int));
            lemma_fold_append(
                OFFSET_BASIS,
                le_bytes_of_words(words@.take(i as int)),
                le_bytes_u32(words@[i as int]),
            );
        }
        hash = fold_bytes(hash, &bytes);
        i = i + 1;
    }
    assert(words@.take(i as int) =~= words@);
    hash
}

/// Streaming writes compose: writing `a` then `b` leaves the state that
/// writing their concatenation in one call would.
pub proof fn law_streaming_writes_compose(state: u64, a: Seq<u8>, b: Seq<u8>)
    ensures
        spec_fold(spec_fold(state, a), b) == spec_fold(state, a + b),
{
    lemma_fold_append(state, a, b);
}

} // verus!
