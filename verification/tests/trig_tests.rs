use draw3d::fixed::ONE;
use draw3d::trig::{reduce_angle, sincos, HALF_PI_FX, PI_FX, TWO_PI_FX};

#[test]
fn zero_angle_is_exact() {
    assert_eq!(sincos(0), (ONE, 0));
}

#[test]
fn full_turn_reduces_to_exact_zero() {
    // the fixed-point two-pi reduces to exactly zero, so a full turn's
    // rotation is exactly the identity
    assert_eq!(reduce_angle(TWO_PI_FX), 0);
    assert_eq!(sincos(TWO_PI_FX), (ONE, 0));
    assert_eq!(sincos(-TWO_PI_FX), (ONE, 0));
}

#[test]
fn quarter_turn() {
    let (c, s) = sincos(HALF_PI_FX);
    assert!(c.abs() <= 64, "cos(pi/2) ~ 0, got {c}");
    assert!((s - ONE).abs() <= 256, "sin(pi/2) ~ 1, got {s}");
}

#[test]
fn half_turn() {
    let (c, s) = sincos(PI_FX);
    assert!((c + ONE).abs() <= 256, "cos(pi) ~ -1, got {c}");
    assert!(s.abs() <= 64, "sin(pi) ~ 0, got {s}");
}

#[test]
fn odd_symmetry() {
    let (cp, sp) = sincos(HALF_PI_FX / 3);
    let (cn, sn) = sincos(-(HALF_PI_FX / 3));
    assert_eq!(cp, cn);
    assert_eq!(sp, -sn);
}

#[test]
fn reduction_stays_in_range() {
    let angles: Vec<i64> = vec![0, 1, -1, PI_FX, -PI_FX, TWO_PI_FX + 5, 10 * TWO_PI_FX + 77,
        -7 * TWO_PI_FX - 123, i64::MAX, i64::MIN];
    for a in angles {
        let r = reduce_angle(a);
        assert!(-PI_FX <= r && r <= PI_FX, "reduce({a}) = {r} out of range");
    }
}
