use echo::units::{clamp_micro, isqrt, mul_micro, saturate_wide, SCALE};

#[test]
fn one_whole_is_a_million() {
    assert_eq!(SCALE, 1_000_000);
}

#[test]
fn products_round_toward_zero() {
    assert_eq!(mul_micro(2_000_000, 3_500_000), 7_000_000);
    assert_eq!(mul_micro(1, 500_000), 0);
    assert_eq!(mul_micro(-1, 500_000), 0);
    assert_eq!(mul_micro(3, 500_000), 1);
    assert_eq!(mul_micro(-3, 500_000), -1);
    assert_eq!(mul_micro(-3, -500_000), 1);
    assert_eq!(mul_micro(0, i64::MIN), 0);
}

#[test]
fn products_stop_at_the_end_of_the_range() {
    assert_eq!(mul_micro(i64::MAX, i64::MAX), i64::MAX);
    assert_eq!(mul_micro(i64::MIN, i64::MAX), i64::MIN);
    assert_eq!(mul_micro(i64::MIN, i64::MIN), i64::MAX);
    assert_eq!(mul_micro(i64::MAX, 1_000_000), i64::MAX);
    assert_eq!(mul_micro(i64::MIN, 1_000_000), i64::MIN);
}

#[test]
fn wide_values_are_limited() {
    assert_eq!(saturate_wide(0), 0);
    assert_eq!(saturate_wide(-5), -5);
    assert_eq!(saturate_wide(i64::MAX as i128), i64::MAX);
    assert_eq!(saturate_wide(i64::MAX as i128 + 1), i64::MAX);
    assert_eq!(saturate_wide(i64::MIN as i128 - 1), i64::MIN);
    assert_eq!(saturate_wide(i128::MAX), i64::MAX);
    assert_eq!(saturate_wide(i128::MIN), i64::MIN);
}

#[test]
fn values_are_clamped_to_an_interval() {
    assert_eq!(clamp_micro(5, -10, 10), 5);
    assert_eq!(clamp_micro(-11, -10, 10), -10);
    assert_eq!(clamp_micro(11, -10, 10), 10);
    assert_eq!(clamp_micro(10, 10, 10), 10);
}

#[test]
fn integer_square_roots_round_down() {
    assert_eq!(isqrt(0), 0);
    assert_eq!(isqrt(1), 1);
    assert_eq!(isqrt(3), 1);
    assert_eq!(isqrt(4), 2);
    assert_eq!(isqrt(99), 9);
    assert_eq!(isqrt(1_000_000_000_000), 1_000_000);
    assert_eq!(isqrt(999_999_999_999), 999_999);
    assert_eq!(isqrt(2_000_000_000_000), 1_414_213);
    assert_eq!(isqrt(u64::MAX), 4_294_967_295);
    for n in 0..2_000u64 {
        let r = isqrt(n);
        assert!(r * r <= n && n < (r + 1) * (r + 1));
    }
}
