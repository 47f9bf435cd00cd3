//! Minimal RIFF/WAVE writer: mono 16-bit PCM with the canonical 44-byte
//! header.
use vstd::prelude::*;

verus! {

/// Little-endian bytes of a `u32`.
pub open spec fn le32_bytes(v: u32) -> Seq<u8> {
    seq![(v & 0xff) as u8, ((v >> 8u32) & 0xff) as u8, ((v >> 16u32) & 0xff) as u8, ((v >> 24u32) & 0xff) as u8]
}

/// Little-endian bytes of a `u16`.
pub open spec fn le16_bytes(v: u16) -> Seq<u8> {
    seq![(v & 0xff) as u8, ((v >> 8u16) & 0xff) as u8]
}

/// The PCM payload: each sample's two's-complement bytes, low byte first.
pub open spec fn spec_pcm(samples: Seq<i16>) -> Seq<u8> {
    Seq::new(
        (2 * samples.len()) as nat,
        |i: int|
            if i % 2 == 0 {
                ((samples[i / 2] as u16) & 0xff) as u8
            } else {
                (((samples[i / 2] as u16) >> 8u16) & 0xff) as u8
            },
    )
}

/// The data chunk's size field: twice the sample count, kept to 32 bits.
pub open spec fn spec_data_len(n: nat) -> u32 {
    ((2 * n) % 0x1_0000_0000) as u32
}

/// The whole file: RIFF header, `fmt ` chunk (PCM, 1 channel, the rate,
/// byte rate `2 * rate`, block align 2, 16 bits), and the `data` chunk.
pub open spec fn spec_wav(sample_rate: u32, samples: Seq<i16>) -> Seq<u8> {
    let data_len = spec_data_len(samples.len());
    seq![0x52u8, 0x49u8, 0x46u8, 0x46u8] + le32_bytes((36 + data_len) as u32) + seq![0x57u8, 0x41u8, 0x56u8, 0x45u8]
        + seq![0x66u8, 0x6Du8, 0x74u8, 0x20u8] + le32_bytes(16) + le16_bytes(1) + le16_bytes(1) + le32_bytes(
        sample_rate,
    ) + le32_bytes((sample_rate * 2) as u32) + le16_bytes(2) + le16_bytes(16) + seq![0x64u8, 0x61u8, 0x74u8, 0x61u8]
        + le32_bytes(data_len) + spec_pcm(samples)
}

fn push_le32(out: &mut Vec<u8>, v: u32)
    ensures
        final(out)@ == old(out)@ + le32_bytes(v),
{
    out.push((v & 0xff) as u8);
    out.push(((v >> 8u32) & 0xff) as u8);
    out.push(((v >> 16u32) & 0xff) as u8);
    out.push(((v >> 24u32) & 0xff) as u8);
    assert(final(out)@ =~= old(out)@ + le32_bytes(v));
}

fn push_le16(out: &mut Vec<u8>, v: u16)
    ensures
        final(out)@ == old(out)@ + le16_bytes(v),
{
    out.push((v & 0xff) as u8);
    out.push(((v >> 8u16) & 0xff) as u8);
    assert(final(out)@ =~= old(out)@ + le16_bytes(v));
}

fn push4(out: &mut Vec<u8>, a: u8, b: u8, c: u8, d: u8)
    ensures
        final(out)@ == old(out)@ + seq![a, b, c, d],
{
    out.push(a);
    out.push(b);
    out.push(c);
    out.push(d);
    assert(final(out)@ =~= old(out)@ + seq![a, b, c, d]);
}

/// Encode mono 16-bit PCM samples as a canonical RIFF/WAVE file.
pub fn encode_mono16(sample_rate: u32, samples: &[i16]) -> (wav: Vec<u8>)
    requires
        sample_rate * 2 <= u32::MAX,
        spec_data_len(samples@.len()) + 36 <= u32::MAX,
    ensures
        wav@ == spec_wav(sample_rate, samples@),
        wav@.len() == 44 + 2 * samples@.len(),
{
    let n = samples.len();
    let half: usize = n % 0x8000_0000;
    proof {
        vstd::arithmetic::div_mod::lemma_fundamental_div_mod(n as int, 0x8000_0000);
        vstd::arithmetic::div_mod::lemma_mod_bound(n as int, 0x8000_0000);
        let q = (n as int) / 0x8000_0000;
        vstd::arithmetic::div_mod::lemma_fundamental_div_mod_converse(2 * n, 0x1_0000_0000, q, 2 * half);
    }
    let data_len: u32 = (half as u32) * 2;
    let riff_size: u32 = 4 + (8 + 16) + (8 + data_len);
    let block_align: u16 = 2;
    let byte_rate: u32 = sample_rate * (block_align as u32);
    let mut out: Vec<u8> = Vec::new();
    push4(&mut out, 0x52, 0x49, 0x46, 0x46);
    push_le32(&mut out, riff_size);
    push4(&mut out, 0x57, 0x41, 0x56, 0x45);
    push4(&mut out, 0x66, 0x6D, 0x74, 0x20);
    push_le32(&mut out, 16);
    push_le16(&mut out, 1);
    push_le16(&mut out, 1);
    push_le32(&mut out, sample_rate);
    push_le32(&mut out, byte_rate);
    push_le16(&mut out, block_align);
    push_le16(&mut out, 16);
    push4(&mut out, 0x64, 0x61, 0x74, 0x61);
    push_le32(&mut out, data_len);
    let ghost header = out@;
    assert(header.len() == 44);
    let mut i: usize = 0;
    while i < n
        invariant
            i <= n,
            n == samples@.len(),
            header.len() == 44,
            out@ == header + spec_pcm(samples@.take(i as int)),
        decreases n - i,
    {
        let s = samples[i];
        let u = s as u16;
        out.push((u & 0xff) as u8);
        out.push(((u >> 8u16) & 0xff) as u8);
        proof {
            let t0 = samples@.take(i as int);
            let t1 = samples@.take(i as int + 1);
            assert(spec_pcm(t1) =~= spec_pcm(t0) + seq![(u & 0xff) as u8, ((u >> 8u16) & 0xff) as u8]) by {
                assert forall|k: int| 0 <= k < 2 * i implies #[trigger] spec_pcm(t1)[k] == spec_pcm(t0)[k] by {
                    assert(t1[k / 2] == t0[k / 2]);
                }
                assert((2 * i as int) / 2 == i as int);
                assert((2 * i as int + 1) / 2 == i as int);
                assert((2 * i as int) % 2 == 0);
                assert((2 * i as int + 1) % 2 == 1);
            }
        }
        i = i + 1;
    }
    assert(samples@.take(n as int) =~= samples@);
    assert(out@ =~= spec_wav(sample_rate, samples@));
    out
}

/// Each sample reads back from its slot in the data chunk: the
/// little-endian 16-bit value at byte `44 + 2i` is sample `i`.
pub proof fn law_wav_samples_read_back(sample_rate: u32, samples: Seq<i16>, i: int)
    requires
        0 <= i < samples.len(),
    ensures
        (((spec_wav(sample_rate, samples)[44 + 2 * i] as u16) | ((spec_wav(sample_rate, samples)[45 + 2 * i]
            as u16) << 8u16)) as i16) == samples[i],
{
    let w = spec_wav(sample_rate, samples);
    let p = spec_pcm(samples);
    assert(w[44 + 2 * i] == p[2 * i]);
    assert(w[45 + 2 * i] == p[2 * i + 1]);
    assert((2 * i) / 2 == i && (2 * i + 1) / 2 == i && (2 * i) % 2 == 0 && (2 * i + 1) % 2 == 1);
    let s = samples[i];
    let lo = ((s as u16) & 0xff) as u8;
    let hi = (((s as u16) >> 8u16) & 0xff) as u8;
    assert((((lo as u16) | ((hi as u16) << 8u16)) as i16) == s) by (bit_vector)
        requires
            lo == ((s as u16) & 0xff) as u8,
            hi == (((s as u16) >> 8u16) & 0xff) as u8,
    ;
}

} // verus!
