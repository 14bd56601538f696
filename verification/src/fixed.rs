//! Fixed-point scalar arithmetic.
//!
//! Every scalar of the pipeline (coordinate, angle, attenuation factor,
//! stroke width) is an `i64` holding a real number scaled by `ONE`.
//! All operations are total: results are saturated into the `i64` range,
//! and every operation is specified exactly, so callers reason about
//! the precise value computed, not merely a range.

use vstd::prelude::*;

verus! {

/// The fixed-point scale: the representation of the real number 1.
pub const ONE: i64 = 65536;

/// Saturate a mathematical integer into the `i64` range.
pub open spec fn sat(v: int) -> i64 {
    if v > i64::MAX {
        i64::MAX
    } else if v < i64::MIN {
        i64::MIN
    } else {
        v as i64
    }
}

/// Division truncating toward zero (the machine's division), defined for `b != 0`.
pub open spec fn div_z(a: int, b: int) -> int {
    let m: int = abs_i(a) / abs_i(b);
    if (a < 0) == (b < 0) {
        m
    } else {
        -m
    }
}

/// Absolute value of a mathematical integer.
pub open spec fn abs_i(a: int) -> int {
    if a < 0 {
        -a
    } else {
        a
    }
}

/// The exact value of fixed-point multiplication.
pub open spec fn fx_mul_s(a: i64, b: i64) -> i64 {
    sat(div_z(a * b, ONE as int))
}

/// The exact value of fixed-point division.
pub open spec fn fx_div_s(a: i64, b: i64) -> i64 {
    sat(div_z(a * (ONE as int), b as int))
}

/// The exact value of saturating addition.
pub open spec fn fx_add_s(a: i64, b: i64) -> i64 {
    sat(a + b)
}

/// The exact value of saturating subtraction.
pub open spec fn fx_sub_s(a: i64, b: i64) -> i64 {
    sat(a - b)
}

/// The exact value of saturating negation.
pub open spec fn fx_neg_s(a: i64) -> i64 {
    sat(-(a as int))
}

/// The attenuation clamp: restrict a factor to [0, 1].
pub open spec fn clamp01_s(a: i64) -> i64 {
    if a < 0 {
        0
    } else if a > ONE {
        ONE
    } else {
        a
    }
}

proof fn lemma_i64_product_fits(a: int, b: int)
    by (nonlinear_arith)
    requires
        i64::MIN <= a <= i64::MAX,
        i64::MIN <= b <= i64::MAX,
    ensures
        -0x40000000000000000000000000000000 <= a * b <= 0x40000000000000000000000000000000,
{
}

/// Fixed-point multiplication: `(a * b) / ONE`, truncated toward zero, saturated.
pub fn fx_mul(a: i64, b: i64) -> (r: i64)
    ensures
        r == fx_mul_s(a, b),
{
    proof {
        lemma_i64_product_fits(a as int, b as int);
    }
    let p: i128 = (a as i128) * (b as i128);
    let mag: u128 = if p < 0 {
        (-p) as u128
    } else {
        p as u128
    };
    assert(mag == abs_i(a * b));
    let q: u128 = mag / 65536u128;
    assert(q == abs_i(a * b) / (ONE as int));
    sat_signed(q, p < 0)
}

/// Fixed-point division: `(a * ONE) / b`, truncated toward zero, saturated.
pub fn fx_div(a: i64, b: i64) -> (r: i64)
    requires
        b != 0,
    ensures
        r == fx_div_s(a, b),
{
    let p: i128 = (a as i128) * 65536;
    let mag_a: u128 = if p < 0 {
        (-p) as u128
    } else {
        p as u128
    };
    let mag_b: u128 = if b < 0 {
        (-(b as i128)) as u128
    } else {
        b as u128
    };
    assert(mag_a == abs_i(a * (ONE as int)));
    assert(mag_b == abs_i(b as int));
    let q: u128 = mag_a / mag_b;
    assert(q == abs_i(a * (ONE as int)) / abs_i(b as int));
    let neg: bool = (a < 0) != (b < 0) && a != 0;
    assert(neg ==> div_z(a * (ONE as int), b as int) == -q);
    assert(!neg ==> div_z(a * (ONE as int), b as int) == q) by {
        if a == 0 {
            assert(a * (ONE as int) == 0);
        }
    };
    sat_signed(q, neg)
}

/// Saturate a magnitude with a sign into the `i64` range.
fn sat_signed(q: u128, neg: bool) -> (r: i64)
    ensures
        neg ==> r == sat(-(q as int)),
        !neg ==> r == sat(q as int),
{
    if neg {
        if q >= 0x8000000000000000u128 {
            i64::MIN
        } else {
            -(q as i64)
        }
    } else {
        if q > 0x7fffffffffffffffu128 {
            i64::MAX
        } else {
            q as i64
        }
    }
}

/// Saturating addition.
pub fn fx_add(a: i64, b: i64) -> (r: i64)
    ensures
        r == fx_add_s(a, b),
{
    let s: i128 = (a as i128) + (b as i128);
    if s > 0x7fffffffffffffffi128 {
        i64::MAX
    } else if s < -0x8000000000000000i128 {
        i64::MIN
    } else {
        s as i64
    }
}

/// Saturating subtraction.
pub fn fx_sub(a: i64, b: i64) -> (r: i64)
    ensures
        r == fx_sub_s(a, b),
{
    let s: i128 = (a as i128) - (b as i128);
    if s > 0x7fffffffffffffffi128 {
        i64::MAX
    } else if s < -0x8000000000000000i128 {
        i64::MIN
    } else {
        s as i64
    }
}

/// Saturating negation.
pub fn fx_neg(a: i64) -> (r: i64)
    ensures
        r == fx_neg_s(a),
{
    if a == i64::MIN {
        i64::MAX
    } else {
        -a
    }
}

/// Clamp a factor into [0, 1]; attenuation factors always pass through here.
pub fn clamp01(a: i64) -> (r: i64)
    ensures
        r == clamp01_s(a),
        0 <= r <= ONE,
{
    if a < 0 {
        0
    } else if a > ONE {
        ONE
    } else {
        a
    }
}

/// The magnitude of an `i64`, as a `u64`.
pub fn fx_abs_mag(a: i64) -> (r: u64)
    ensures
        r == abs_i(a as int),
{
    if a < 0 {
        (-(a as i128)) as u64
    } else {
        a as u64
    }
}

/// The square of an `i64`, exactly, as a `u128`.
pub fn fx_sq_mag(a: i64) -> (r: u128)
    ensures
        r == (a as int) * (a as int),
        r <= 0x40000000000000000000000000000000,
{
    let m: u64 = fx_abs_mag(a);
    proof {
        assert((m as int) * (m as int) == (a as int) * (a as int) && (m as int) * (m as int)
            <= 0x40000000000000000000000000000000int)
            by (nonlinear_arith)
            requires
                m == abs_i(a as int),
                i64::MIN <= a <= i64::MAX,
        ;
    }
    (m as u128) * (m as u128)
}

/// Multiplying by the fixed-point 1 is exact: no rounding, no saturation.
pub proof fn lemma_fx_mul_one(a: i64)
    ensures
        fx_mul_s(a, ONE) == a,
        fx_mul_s(ONE, a) == a,
{
    let m: int = abs_i(a as int);
    vstd::arithmetic::div_mod::lemma_div_multiples_vanish(m, 65536);
    assert(abs_i(a * 65536) == m * 65536);
    assert((m * 65536) / 65536 == m);
}

/// Multiplying by zero gives exactly zero.
pub proof fn lemma_fx_mul_zero(a: i64)
    ensures
        fx_mul_s(a, 0) == 0,
        fx_mul_s(0, a) == 0,
{
    assert(a * 0 == 0) by (nonlinear_arith);
    assert(0 * a == 0) by (nonlinear_arith);
}

/// Multiplying by the fixed-point -1 is exact negation.
pub proof fn lemma_fx_mul_neg_one(a: i64)
    ensures
        fx_mul_s(a, -65536i64) == fx_neg_s(a),
{
    let m: int = abs_i(a as int);
    vstd::arithmetic::div_mod::lemma_div_multiples_vanish(m, 65536);
    assert(abs_i(a * (-65536)) == m * 65536);
    assert((m * 65536) / 65536 == m);
}

/// `r` is the integer square root of `n`.
pub open spec fn is_sqrt(n: int, r: int) -> bool {
    0 <= r && r * r <= n && n < (r + 1) * (r + 1)
}

/// The integer square root, as a mathematical function.
pub open spec fn sqrt_s(n: int) -> int {
    choose|r: int| is_sqrt(n, r)
}

/// The integer square root is unique.
pub proof fn lemma_sqrt_unique(n: int, a: int, b: int)
    by (nonlinear_arith)
    requires
        is_sqrt(n, a),
        is_sqrt(n, b),
    ensures
        a == b,
{
}

/// Integer square root of a `u128`, by binary search.
pub fn isqrt(n: u128) -> (r: u64)
    ensures
        is_sqrt(n as int, r as int),
        r == sqrt_s(n as int),
{
    let mut lo: u64 = 0;
    let mut hi: u64 = u64::MAX;
    while lo < hi
        invariant
            lo <= hi,
            (lo as int) * (lo as int) <= n,
            n < (hi as int + 1) * (hi as int + 1),
        decreases hi - lo,
    {
        let mid: u64 = lo + (hi - lo - 1) / 2 + 1;
        proof {
            let mi: int = mid as int;
            assert(mi * mi < 0x100000000000000000000000000000000int) by (nonlinear_arith)
                requires
                    0 <= mi < 0x10000000000000000int,
            ;
        }
        let sq: u128 = (mid as u128) * (mid as u128);
        if sq <= n {
            lo = mid;
        } else {
            hi = mid - 1;
        }
    }
    proof {
        assert(is_sqrt(n as int, lo as int));
        lemma_sqrt_unique(n as int, lo as int, sqrt_s(n as int));
    }
    lo
}

} // verus!

