//! Fixed-point 3-component vectors and their exact operation specifications.

use vstd::prelude::*;
use crate::fixed::{
    fx_add, fx_add_s, fx_div, fx_div_s, fx_mul, fx_mul_s, fx_neg, fx_sub, fx_sub_s, isqrt, sat,
    sqrt_s,
};

verus! {

#[derive(Clone, Copy, PartialEq, Eq, Structural, Debug)]
pub struct Vec3Fx {
    pub x: i64,
    pub y: i64,
    pub z: i64,
}

pub open spec fn v3_zero_s() -> Vec3Fx {
    Vec3Fx { x: 0, y: 0, z: 0 }
}

pub open spec fn v3_add_s(a: Vec3Fx, b: Vec3Fx) -> Vec3Fx {
    Vec3Fx { x: fx_add_s(a.x, b.x), y: fx_add_s(a.y, b.y), z: fx_add_s(a.z, b.z) }
}

pub open spec fn v3_sub_s(a: Vec3Fx, b: Vec3Fx) -> Vec3Fx {
    Vec3Fx { x: fx_sub_s(a.x, b.x), y: fx_sub_s(a.y, b.y), z: fx_sub_s(a.z, b.z) }
}

/// Scale every component by the fixed-point scalar `k`.
pub open spec fn v3_scale_s(a: Vec3Fx, k: i64) -> Vec3Fx {
    Vec3Fx { x: fx_mul_s(a.x, k), y: fx_mul_s(a.y, k), z: fx_mul_s(a.z, k) }
}

/// Component-wise product of two vectors.
pub open spec fn v3_mul_s(a: Vec3Fx, b: Vec3Fx) -> Vec3Fx {
    Vec3Fx { x: fx_mul_s(a.x, b.x), y: fx_mul_s(a.y, b.y), z: fx_mul_s(a.z, b.z) }
}

pub open spec fn v3_dot_s(a: Vec3Fx, b: Vec3Fx) -> i64 {
    fx_add_s(fx_add_s(fx_mul_s(a.x, b.x), fx_mul_s(a.y, b.y)), fx_mul_s(a.z, b.z))
}

pub open spec fn v3_cross_s(a: Vec3Fx, b: Vec3Fx) -> Vec3Fx {
    Vec3Fx {
        x: fx_sub_s(fx_mul_s(a.y, b.z), fx_mul_s(a.z, b.y)),
        y: fx_sub_s(fx_mul_s(a.z, b.x), fx_mul_s(a.x, b.z)),
        z: fx_sub_s(fx_mul_s(a.x, b.y), fx_mul_s(a.y, b.x)),
    }
}

/// The squared Euclidean length, in raw squared units.
pub open spec fn v3_len_sq_s(a: Vec3Fx) -> int {
    a.x * a.x + a.y * a.y + a.z * a.z
}

/// The Euclidean length: the integer square root of the squared length.
pub open spec fn v3_len_s(a: Vec3Fx) -> i64 {
    sat(sqrt_s(v3_len_sq_s(a)))
}

/// Normalization, guarded: a vector of length zero is handed back unchanged
/// (it is the zero vector), never turned into an undefined direction.
pub open spec fn v3_norm_s(a: Vec3Fx) -> Vec3Fx {
    let l: i64 = v3_len_s(a);
    if l == 0 {
        a
    } else {
        Vec3Fx { x: fx_div_s(a.x, l), y: fx_div_s(a.y, l), z: fx_div_s(a.z, l) }
    }
}

pub fn v3(x: i64, y: i64, z: i64) -> (r: Vec3Fx)
    ensures
        r == (Vec3Fx { x, y, z }),
{
    Vec3Fx { x, y, z }
}

pub fn v3_zero() -> (r: Vec3Fx)
    ensures
        r == v3_zero_s(),
{
    Vec3Fx { x: 0, y: 0, z: 0 }
}

pub fn v3_add(a: Vec3Fx, b: Vec3Fx) -> (r: Vec3Fx)
    ensures
        r == v3_add_s(a, b),
{
    Vec3Fx { x: fx_add(a.x, b.x), y: fx_add(a.y, b.y), z: fx_add(a.z, b.z) }
}

pub fn v3_sub(a: Vec3Fx, b: Vec3Fx) -> (r: Vec3Fx)
    ensures
        r == v3_sub_s(a, b),
{
    Vec3Fx { x: fx_sub(a.x, b.x), y: fx_sub(a.y, b.y), z: fx_sub(a.z, b.z) }
}

pub fn v3_scale(a: Vec3Fx, k: i64) -> (r: Vec3Fx)
    ensures
        r == v3_scale_s(a, k),
{
    Vec3Fx { x: fx_mul(a.x, k), y: fx_mul(a.y, k), z: fx_mul(a.z, k) }
}

pub fn v3_mul(a: Vec3Fx, b: Vec3Fx) -> (r: Vec3Fx)
    ensures
        r == v3_mul_s(a, b),
{
    Vec3Fx { x: fx_mul(a.x, b.x), y: fx_mul(a.y, b.y), z: fx_mul(a.z, b.z) }
}

pub fn v3_neg(a: Vec3Fx) -> (r: Vec3Fx)
    ensures
        r == v3_scale_s(a, -65536i64),
{
    proof {
        crate::fixed::lemma_fx_mul_neg_one(a.x);
        crate::fixed::lemma_fx_mul_neg_one(a.y);
        crate::fixed::lemma_fx_mul_neg_one(a.z);
    }
    Vec3Fx { x: fx_neg(a.x), y: fx_neg(a.y), z: fx_neg(a.z) }
}

pub fn v3_dot(a: Vec3Fx, b: Vec3Fx) -> (r: i64)
    ensures
        r == v3_dot_s(a, b),
{
    fx_add(fx_add(fx_mul(a.x, b.x), fx_mul(a.y, b.y)), fx_mul(a.z, b.z))
}

pub fn v3_cross(a: Vec3Fx, b: Vec3Fx) -> (r: Vec3Fx)
    ensures
        r == v3_cross_s(a, b),
{
    Vec3Fx {
        x: fx_sub(fx_mul(a.y, b.z), fx_mul(a.z, b.y)),
        y: fx_sub(fx_mul(a.z, b.x), fx_mul(a.x, b.z)),
        z: fx_sub(fx_mul(a.x, b.y), fx_mul(a.y, b.x)),
    }
}

/// The cross product of a vector with itself vanishes exactly.
pub proof fn lemma_cross_self(a: Vec3Fx)
    ensures
        v3_cross_s(a, a) == v3_zero_s(),
{
    assert(a.y * a.z == a.z * a.y) by (nonlinear_arith);
    assert(a.z * a.x == a.x * a.z) by (nonlinear_arith);
    assert(a.x * a.y == a.y * a.x) by (nonlinear_arith);
}

/// The cross product of a vector with its exact negation vanishes too:
/// truncation toward zero mirrors each product of negated factors, so the
/// paired terms cancel exactly. The bounds keep the negation itself exact.
pub proof fn lemma_cross_neg(a: Vec3Fx)
    requires
        a.x != i64::MIN,
        a.y != i64::MIN,
        a.z != i64::MIN,
    ensures
        v3_cross_s(a, v3_scale_s(a, -65536i64)) == v3_zero_s(),
{
    crate::fixed::lemma_fx_mul_neg_one(a.x);
    crate::fixed::lemma_fx_mul_neg_one(a.y);
    crate::fixed::lemma_fx_mul_neg_one(a.z);
    assert(a.y * (-a.z) == a.z * (-a.y)) by (nonlinear_arith);
    assert(a.z * (-a.x) == a.x * (-a.z)) by (nonlinear_arith);
    assert(a.x * (-a.y) == a.y * (-a.x)) by (nonlinear_arith);
}

pub fn v3_len(a: Vec3Fx) -> (r: i64)
    ensures
        r == v3_len_s(a),
        r >= 0,
{
    let sx: u128 = crate::fixed::fx_sq_mag(a.x);
    let sy: u128 = crate::fixed::fx_sq_mag(a.y);
    let sz: u128 = crate::fixed::fx_sq_mag(a.z);
    let n: u128 = sx + sy + sz;
    let q: u64 = isqrt(n);
    if q > 0x7fffffffffffffffu64 {
        i64::MAX
    } else {
        q as i64
    }
}

pub fn v3_norm(a: Vec3Fx) -> (r: Vec3Fx)
    ensures
        r == v3_norm_s(a),
{
    let l: i64 = v3_len(a);
    if l == 0 {
        a
    } else {
        Vec3Fx { x: fx_div(a.x, l), y: fx_div(a.y, l), z: fx_div(a.z, l) }
    }
}

/// The length of the difference of two vectors: the Euclidean distance.
pub open spec fn v3_dist_s(a: Vec3Fx, b: Vec3Fx) -> i64 {
    v3_len_s(v3_sub_s(a, b))
}

pub fn v3_dist(a: Vec3Fx, b: Vec3Fx) -> (r: i64)
    ensures
        r == v3_dist_s(a, b),
        r >= 0,
{
    v3_len(v3_sub(a, b))
}

} // verus!
