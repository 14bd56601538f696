use draw3d::fixed::{clamp01, fx_add, fx_div, fx_mul, fx_neg, fx_sub, isqrt, ONE};

#[test]
fn mul_exact_integers() {
    // 3.0 * 2.0 == 6.0
    assert_eq!(fx_mul(3 * ONE, 2 * ONE), 6 * ONE);
    assert_eq!(fx_mul(-3 * ONE, 2 * ONE), -6 * ONE);
    assert_eq!(fx_mul(-3 * ONE, -2 * ONE), 6 * ONE);
}

#[test]
fn mul_truncates_toward_zero() {
    // tiny positive product truncates to zero
    assert_eq!(fx_mul(3, 3), 0);
    // and so does a tiny negative product
    assert_eq!(fx_mul(-3, 3), 0);
    // (1 + eps)^2 rounds down
    assert_eq!(fx_mul(65537, 65537), 65538);
}

#[test]
fn mul_identity_and_zero() {
    assert_eq!(fx_mul(123456789, ONE), 123456789);
    assert_eq!(fx_mul(ONE, -987654321), -987654321);
    assert_eq!(fx_mul(123456789, 0), 0);
}

#[test]
fn div_exact_and_truncating() {
    // 1/3 in fixed point
    assert_eq!(fx_div(ONE, 3 * ONE), 21845);
    assert_eq!(fx_div(-ONE, 3 * ONE), -21845);
    assert_eq!(fx_div(6 * ONE, 2 * ONE), 3 * ONE);
}

#[test]
fn add_sub_saturate() {
    assert_eq!(fx_add(i64::MAX, 1), i64::MAX);
    assert_eq!(fx_sub(i64::MIN, 1), i64::MIN);
    assert_eq!(fx_add(5 * ONE, -2 * ONE), 3 * ONE);
    assert_eq!(fx_neg(i64::MIN), i64::MAX);
    assert_eq!(fx_neg(7), -7);
}

#[test]
fn mul_saturates() {
    assert_eq!(fx_mul(i64::MAX, 2 * ONE), i64::MAX);
    assert_eq!(fx_mul(i64::MAX, -2 * ONE), i64::MIN);
}

#[test]
fn clamp01_bounds() {
    assert_eq!(clamp01(-5), 0);
    assert_eq!(clamp01(0), 0);
    assert_eq!(clamp01(1234), 1234);
    assert_eq!(clamp01(ONE), ONE);
    assert_eq!(clamp01(ONE + 1), ONE);
}

#[test]
fn isqrt_values() {
    assert_eq!(isqrt(0), 0);
    assert_eq!(isqrt(1), 1);
    assert_eq!(isqrt(144), 12);
    assert_eq!(isqrt(145), 12);
    assert_eq!(isqrt(168), 12);
    assert_eq!(isqrt(169), 13);
    assert_eq!(isqrt(u128::MAX), u64::MAX);
}
