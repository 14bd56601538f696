//! Fixed-point sine and cosine.
//!
//! The angle is reduced into [-pi, pi] by the fixed-point two-pi constant,
//! folded into [-pi/2, pi/2], and evaluated by a truncated Taylor
//! polynomial. The zero angle is handled exactly: `sincos(0)` is exactly
//! `(1, 0)`, so a rotation by a zero angle is exactly the identity.

use vstd::prelude::*;
use crate::fixed::{abs_i, fx_abs_mag, fx_div, fx_div_s, fx_mul, fx_mul_s, fx_neg, fx_neg_s, ONE};

verus! {

/// The fixed-point pi (3.14159... scaled by `ONE`, rounded to nearest).
pub const PI_FX: i64 = 205887;

/// The fixed-point two-pi.
pub const TWO_PI_FX: i64 = 411775;

/// The fixed-point pi/2.
pub const HALF_PI_FX: i64 = 102944;

/// The angle folded into [-pi, pi], congruent modulo the fixed-point two-pi.
pub open spec fn reduce_angle_s(a: i64) -> i64 {
    let m: int = abs_i(a as int) % (TWO_PI_FX as int);
    let v: int = if a < 0 {
        -m
    } else {
        m
    };
    if v > PI_FX {
        (v - TWO_PI_FX) as i64
    } else if v < -PI_FX {
        (v + TWO_PI_FX) as i64
    } else {
        v as i64
    }
}

/// Taylor polynomial for the sine on the folded range.
pub open spec fn sin_core_s(x: i64) -> i64 {
    let x2: i64 = fx_mul_s(x, x);
    let x3: i64 = fx_mul_s(x2, x);
    let x5: i64 = fx_mul_s(x3, x2);
    let x7: i64 = fx_mul_s(x5, x2);
    crate::fixed::fx_add_s(
        crate::fixed::fx_sub_s(
            crate::fixed::fx_sub_s(x, fx_div_s(x3, 393216)),
            fx_div_s(x7, 330301440),
        ),
        fx_div_s(x5, 7864320),
    )
}

/// Taylor polynomial for the cosine on the folded range.
pub open spec fn cos_core_s(x: i64) -> i64 {
    let x2: i64 = fx_mul_s(x, x);
    let x4: i64 = fx_mul_s(x2, x2);
    let x6: i64 = fx_mul_s(x4, x2);
    crate::fixed::fx_add_s(
        crate::fixed::fx_sub_s(
            crate::fixed::fx_sub_s(ONE, fx_div_s(x2, 131072)),
            fx_div_s(x6, 47185920),
        ),
        fx_div_s(x4, 1572864),
    )
}

/// The cosine and sine of a fixed-point angle in radians.
pub open spec fn sincos_s(a: i64) -> (i64, i64) {
    if a == 0 {
        (ONE, 0)
    } else {
        let x: i64 = reduce_angle_s(a);
        if x > HALF_PI_FX {
            let y: i64 = (PI_FX - x) as i64;
            (fx_neg_s(cos_core_s(y)), sin_core_s(y))
        } else if x < -HALF_PI_FX {
            let y: i64 = (x + PI_FX) as i64;
            (fx_neg_s(cos_core_s(y)), fx_neg_s(sin_core_s(y)))
        } else {
            (cos_core_s(x), sin_core_s(x))
        }
    }
}

/// Fold the angle into [-pi, pi].
pub fn reduce_angle(a: i64) -> (r: i64)
    ensures
        r == reduce_angle_s(a),
        -PI_FX <= r <= PI_FX,
{
    let mag: u64 = fx_abs_mag(a);
    let m: u64 = mag % 411775u64;
    let v: i64 = if a < 0 {
        -(m as i64)
    } else {
        m as i64
    };
    if v > PI_FX {
        v - TWO_PI_FX
    } else if v < -PI_FX {
        v + TWO_PI_FX
    } else {
        v
    }
}

fn sin_core(x: i64) -> (r: i64)
    ensures
        r == sin_core_s(x),
{
    let x2: i64 = fx_mul(x, x);
    let x3: i64 = fx_mul(x2, x);
    let x5: i64 = fx_mul(x3, x2);
    let x7: i64 = fx_mul(x5, x2);
    crate::fixed::fx_add(
        crate::fixed::fx_sub(crate::fixed::fx_sub(x, fx_div(x3, 393216)), fx_div(x7, 330301440)),
        fx_div(x5, 7864320),
    )
}

fn cos_core(x: i64) -> (r: i64)
    ensures
        r == cos_core_s(x),
{
    let x2: i64 = fx_mul(x, x);
    let x4: i64 = fx_mul(x2, x2);
    let x6: i64 = fx_mul(x4, x2);
    crate::fixed::fx_add(
        crate::fixed::fx_sub(crate::fixed::fx_sub(ONE, fx_div(x2, 131072)), fx_div(x6, 47185920)),
        fx_div(x4, 1572864),
    )
}

/// The cosine and sine of a fixed-point angle in radians.
pub fn sincos(a: i64) -> (r: (i64, i64))
    ensures
        r == sincos_s(a),
{
    if a == 0 {
        (ONE, 0)
    } else {
        let x: i64 = reduce_angle(a);
        if x > HALF_PI_FX {
            let y: i64 = PI_FX - x;
            (fx_neg(cos_core(y)), sin_core(y))
        } else if x < -HALF_PI_FX {
            let y: i64 = x + PI_FX;
            (fx_neg(cos_core(y)), fx_neg(sin_core(y)))
        } else {
            (cos_core(x), sin_core(x))
        }
    }
}

/// The zero angle has exactly the cosine one and the sine zero.
pub proof fn lemma_sincos_zero()
    ensures
        sincos_s(0) == ((ONE, 0i64)),
{
}

} // verus!
