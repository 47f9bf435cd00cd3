use lib::golden::{channels, diff_totals, passes, DiffTotals};

#[test]
fn mismatched_lengths_fail_without_panicking() {
    assert!(diff_totals(&[0, 0], &[0]).is_none());
}

#[test]
fn empty_slices_fail_without_panicking() {
    assert!(diff_totals(&[], &[]).is_none());
}

#[test]
fn identical_frames_have_zero_totals() {
    let a = [0x00112233u32, 0x00FFFFFF, 0];
    let t = diff_totals(&a, &a).unwrap();
    assert_eq!(t.pixels, 3);
    assert_eq!(t.sum_abs, [0, 0, 0]);
    assert_eq!(t.over_count, 0);
}

#[test]
fn totals_count_per_channel_and_per_pixel_threshold() {
    let a = [0x00000000u32, 0x00000000, 0x00000000];
    let b = [0x00180000u32, 0x00001900, 0x00000001];
    let t = diff_totals(&a, &b).unwrap();
    assert_eq!(t.sum_abs, [24, 25, 1]);
    assert_eq!(t.over_count, 1, "24 is at the limit, 25 is over");
    assert_eq!(channels(0x00ABCDEF), [0xAB, 0xCD, 0xEF]);
}

fn solid(color: u32, n: usize) -> Vec<u32> {
    vec![color; n]
}

fn mean(t: &DiffTotals, c: usize) -> f32 {
    (t.sum_abs[c] as f64 / t.pixels as f64) as f32
}

fn fraction(t: &DiffTotals) -> f32 {
    (t.over_count as f64 / t.pixels as f64) as f32
}

#[test]
fn identical_frames_pass_with_zero_diff() {
    let a = solid(0x00112233, 100);
    let t = diff_totals(&a, &a).unwrap();
    assert_eq!([mean(&t, 0), mean(&t, 1), mean(&t, 2)], [0.0, 0.0, 0.0]);
    assert_eq!(fraction(&t), 0.0);
    assert!(passes(&t));
}

#[test]
fn mean_diff_exactly_at_the_two_limit_still_passes() {
    let a = solid(0x00000000, 50);
    let b = solid(0x00020000, 50);
    let t = diff_totals(&a, &b).unwrap();
    assert!((mean(&t, 0) - 2.0).abs() < 1e-5);
    assert!(passes(&t), "totals={t:?}");
}

#[test]
fn mean_diff_just_over_the_limit_fails() {
    let a = solid(0x00000000, 50);
    let b = solid(0x00030000, 50);
    let t = diff_totals(&a, &b).unwrap();
    assert!((mean(&t, 0) - 3.0).abs() < 1e-5);
    assert!(!passes(&t), "totals={t:?}");
}

#[test]
fn small_fraction_of_large_diffs_within_one_percent_still_passes() {
    let mut a = solid(0x00000000, 200);
    let mut b = solid(0x00000000, 200);
    a[0] = 0x00000000;
    b[0] = 0x00640000;
    let t = diff_totals(&a, &b).unwrap();
    assert!((fraction(&t) - 0.005).abs() < 1e-6);
    assert!(passes(&t), "totals={t:?}");
}

#[test]
fn over_one_percent_large_diffs_fails_even_with_a_low_mean() {
    let mut a = solid(0x00000000, 200);
    let mut b = solid(0x00000000, 200);
    for i in 0..3 {
        a[i] = 0x00000000;
        b[i] = 0x00640000;
    }
    let t = diff_totals(&a, &b).unwrap();
    assert!((mean(&t, 0) - 1.5).abs() < 1e-5);
    assert!(fraction(&t) > 0.01);
    assert!(!passes(&t), "totals={t:?}");
}

#[test]
fn exactly_at_the_per_pixel_diff_boundary_does_not_count_as_over() {
    let a = solid(0x00000000, 10);
    let b = solid(0x00180000, 10);
    let t = diff_totals(&a, &b).unwrap();
    assert_eq!(fraction(&t), 0.0);
}

#[test]
fn exactly_one_percent_over_still_passes() {
    let a = solid(0x00000000, 100);
    let mut b = solid(0x00000000, 100);
    b[7] = 0x00000019;
    let t = diff_totals(&a, &b).unwrap();
    assert_eq!(t.over_count, 1);
    assert!(passes(&t));
    b[8] = 0x00190000;
    let t = diff_totals(&a, &b).unwrap();
    assert!(!passes(&t));
}
