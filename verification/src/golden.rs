//! Golden-frame comparison: per-channel absolute differences summed over
//! two `0x00RRGGBB` framebuffers, how many pixels differ by more than the
//! per-pixel limit on some channel, and the tolerance rule over those
//! totals (every channel's mean difference at most 2, at most 1% of pixels
//! over the limit). The host reports the means and fraction as floats.
use vstd::prelude::*;

verus! {

/// A channel difference above this counts the pixel as over the limit.
pub const PER_PIXEL_DIFF_LIMIT: i32 = 24;

/// Largest framebuffer the sums are kept for (so they fit in `u64`).
pub const MAX_PIXELS: u64 = 0x0100_0000_0000_0000;

/// Channel `c` (0 = R, 1 = G, 2 = B) of a pixel.
pub open spec fn spec_channel(p: u32, c: int) -> u8 {
    if c == 0 {
        ((p >> 16u32) & 0xff) as u8
    } else if c == 1 {
        ((p >> 8u32) & 0xff) as u8
    } else {
        (p & 0xff) as u8
    }
}

/// Absolute difference of channel `c` between two pixels.
pub open spec fn spec_abs_diff(a: u32, b: u32, c: int) -> int {
    let d = spec_channel(a, c) - spec_channel(b, c);
    if d < 0 {
        -d
    } else {
        d
    }
}

/// Some channel differs by more than the per-pixel limit.
pub open spec fn spec_pixel_over(a: u32, b: u32) -> bool {
    spec_abs_diff(a, b, 0) > PER_PIXEL_DIFF_LIMIT || spec_abs_diff(a, b, 1) > PER_PIXEL_DIFF_LIMIT
        || spec_abs_diff(a, b, 2) > PER_PIXEL_DIFF_LIMIT
}

/// Sum of channel `c`'s absolute differences over the first `n` pixels.
pub open spec fn spec_sum_diff(a: Seq<u32>, b: Seq<u32>, c: int, n: nat) -> int
    decreases n,
{
    if n == 0 {
        0
    } else {
        spec_sum_diff(a, b, c, (n - 1) as nat) + spec_abs_diff(a[n - 1], b[n - 1], c)
    }
}

/// Number of the first `n` pixels over the per-pixel limit.
pub open spec fn spec_over_count(a: Seq<u32>, b: Seq<u32>, n: nat) -> int
    decreases n,
{
    if n == 0 {
        0
    } else {
        spec_over_count(a, b, (n - 1) as nat) + if spec_pixel_over(a[n - 1], b[n - 1]) {
            1int
        } else {
            0int
        }
    }
}

/// Difference totals of two equal-size, non-empty framebuffers.
#[derive(Clone, Copy, Debug, PartialEq, Eq)]
pub struct DiffTotals {
    pub pixels: u64,
    pub sum_abs: [u64; 3],
    pub over_count: u64,
}

/// The R, G, B bytes of a pixel.
pub fn channels(p: u32) -> (c: [u8; 3])
    ensures
        c[0] == spec_channel(p, 0),
        c[1] == spec_channel(p, 1),
        c[2] == spec_channel(p, 2),
{
    [((p >> 16u32) & 0xFF) as u8, ((p >> 8u32) & 0xFF) as u8, (p & 0xFF) as u8]
}

fn abs_diff(x: u8, y: u8) -> (d: u64)
    ensures
        d == (if x >= y { x - y } else { y - x }),
{
    if x >= y {
        (x - y) as u64
    } else {
        (y - x) as u64
    }
}

/// Difference totals of `a` against `b`; `None` when their lengths differ
/// or they are empty.
pub fn diff_totals(a: &[u32], b: &[u32]) -> (r: Option<DiffTotals>)
    requires
        a@.len() <= MAX_PIXELS,
    ensures
        (a@.len() != b@.len() || a@.len() == 0) <==> r is None,
        r matches Some(t) ==> {
            &&& t.pixels == a@.len()
            &&& t.sum_abs[0] == spec_sum_diff(a@, b@, 0, a@.len())
            &&& t.sum_abs[1] == spec_sum_diff(a@, b@, 1, a@.len())
            &&& t.sum_abs[2] == spec_sum_diff(a@, b@, 2, a@.len())
            &&& t.over_count == spec_over_count(a@, b@, a@.len())
        },
{
    if a.len() != b.len() || a.len() == 0 {
        return None;
    }
    let n = a.len();
    let mut s0: u64 = 0;
    let mut s1: u64 = 0;
    let mut s2: u64 = 0;
    let mut over: u64 = 0;
    let mut i: usize = 0;
    while i < n
        invariant
            i <= n,
            n == a@.len(),
            n == b@.len(),
            n <= MAX_PIXELS,
            s0 == spec_sum_diff(a@, b@, 0, i as nat),
            s1 == spec_sum_diff(a@, b@, 1, i as nat),
            s2 == spec_sum_diff(a@, b@, 2, i as nat),
            over == spec_over_count(a@, b@, i as nat),
            s0 <= 255 * i,
            s1 <= 255 * i,
            s2 <= 255 * i,
            over <= i,
        decreases n - i,
    {
        let ca = channels(a[i]);
        let cb = channels(b[i]);
        let d0 = abs_diff(ca[0], cb[0]);
        let d1 = abs_diff(ca[1], cb[1]);
        let d2 = abs_diff(ca[2], cb[2]);
        s0 = s0 + d0;
        s1 = s1 + d1;
        s2 = s2 + d2;
        if d0 > 24 || d1 > 24 || d2 > 24 {
            over = over + 1;
        }
        i = i + 1;
    }
    Some(DiffTotals { pixels: n as u64, sum_abs: [s0, s1, s2], over_count: over })
}

/// Largest mean absolute difference a channel may show and still pass.
pub const MEAN_DIFF_LIMIT: u64 = 2;

/// Percentage of pixels that may be over the per-pixel limit and still pass.
pub const OVER_PERCENT_LIMIT: u64 = 1;

/// The tolerance rule: each channel's mean absolute difference (its sum
/// over the pixel count) is at most `MEAN_DIFF_LIMIT`, and at most
/// `OVER_PERCENT_LIMIT` percent of the pixels are over the per-pixel limit.
/// Stated without division: `sum <= 2 * pixels` and `100 * over <= pixels`.
pub open spec fn spec_passes(t: DiffTotals) -> bool {
    &&& t.sum_abs[0] <= MEAN_DIFF_LIMIT * t.pixels
    &&& t.sum_abs[1] <= MEAN_DIFF_LIMIT * t.pixels
    &&& t.sum_abs[2] <= MEAN_DIFF_LIMIT * t.pixels
    &&& 100 * t.over_count <= OVER_PERCENT_LIMIT * t.pixels
}

/// Whether difference totals meet the tolerance rule.
pub fn passes(t: &DiffTotals) -> (b: bool)
    ensures
        b == spec_passes(*t),
{
    let n = t.pixels as u128;
    let limit: u128 = 2 * n;
    let over_limit: u128 = n;
    let over: u128 = (t.over_count as u128) * 100;
    assert(MEAN_DIFF_LIMIT == 2 && OVER_PERCENT_LIMIT == 1);
    (t.sum_abs[0] as u128) <= limit && (t.sum_abs[1] as u128) <= limit && (t.sum_abs[2] as u128) <= limit
        && over <= over_limit
}

/// A frame compared with itself differs nowhere.
proof fn lemma_self_totals_zero(a: Seq<u32>, n: nat)
    requires
        n <= a.len(),
    ensures
        spec_sum_diff(a, a, 0, n) == 0,
        spec_sum_diff(a, a, 1, n) == 0,
        spec_sum_diff(a, a, 2, n) == 0,
        spec_over_count(a, a, n) == 0,
    decreases n,
{
    if n > 0 {
        lemma_self_totals_zero(a, (n - 1) as nat);
    }
}

/// Identical frames always pass, with every total zero.
pub proof fn law_identical_frames_pass(a: Seq<u32>)
    requires
        0 < a.len() <= MAX_PIXELS,
    ensures
        ({
            let t = DiffTotals {
                pixels: a.len() as u64,
                sum_abs: [
                    spec_sum_diff(a, a, 0, a.len()) as u64,
                    spec_sum_diff(a, a, 1, a.len()) as u64,
                    spec_sum_diff(a, a, 2, a.len()) as u64,
                ],
                over_count: spec_over_count(a, a, a.len()) as u64,
            };
            &&& t.sum_abs == [0u64, 0u64, 0u64]
            &&& t.over_count == 0
            &&& spec_passes(t)
        }),
{
    lemma_self_totals_zero(a, a.len());
}

} // verus!
