//! Fixed-point 4x4 matrices in column layout, with exact operation
//! specifications. Only the constructions the pipeline needs are provided:
//! identity, rotations, translations, products, the affine inverse, and
//! point transformation.

use vstd::prelude::*;
use crate::fixed::{
    fx_add, fx_add_s, fx_div, fx_div_s, fx_mul, fx_mul_s, fx_neg, fx_neg_s, fx_sub, fx_sub_s,
    lemma_fx_mul_one, lemma_fx_mul_zero, ONE,
};
use crate::vec3::{v3_cross, v3_cross_s, v3_dot, v3_dot_s, Vec3Fx};

verus! {

#[derive(Clone, Copy, PartialEq, Eq, Structural, Debug)]
pub struct Vec4Fx {
    pub x: i64,
    pub y: i64,
    pub z: i64,
    pub w: i64,
}

/// A 4x4 matrix as four column vectors, in the usual graphics layout:
/// column `w_axis` carries the translation of an affine transform.
#[derive(Clone, Copy, PartialEq, Eq, Structural, Debug)]
pub struct Mat4Fx {
    pub x_axis: Vec4Fx,
    pub y_axis: Vec4Fx,
    pub z_axis: Vec4Fx,
    pub w_axis: Vec4Fx,
}

/// The matrix is affine: no projective row, unit homogeneous coordinate.
pub open spec fn m4_affine_s(m: Mat4Fx) -> bool {
    m.x_axis.w == 0 && m.y_axis.w == 0 && m.z_axis.w == 0 && m.w_axis.w == ONE
}

pub open spec fn v4_add_s(a: Vec4Fx, b: Vec4Fx) -> Vec4Fx {
    Vec4Fx {
        x: fx_add_s(a.x, b.x),
        y: fx_add_s(a.y, b.y),
        z: fx_add_s(a.z, b.z),
        w: fx_add_s(a.w, b.w),
    }
}

pub open spec fn v4_scale_s(a: Vec4Fx, k: i64) -> Vec4Fx {
    Vec4Fx {
        x: fx_mul_s(a.x, k),
        y: fx_mul_s(a.y, k),
        z: fx_mul_s(a.z, k),
        w: fx_mul_s(a.w, k),
    }
}

/// The matrix applied to a homogeneous vector: the linear combination of
/// the columns by the vector's components.
pub open spec fn m4_mul_vec4_s(m: Mat4Fx, v: Vec4Fx) -> Vec4Fx {
    v4_add_s(
        v4_add_s(
            v4_add_s(v4_scale_s(m.x_axis, v.x), v4_scale_s(m.y_axis, v.y)),
            v4_scale_s(m.z_axis, v.z),
        ),
        v4_scale_s(m.w_axis, v.w),
    )
}

/// Matrix product: each column of `b` pushed through `a`.
pub open spec fn m4_mul_s(a: Mat4Fx, b: Mat4Fx) -> Mat4Fx {
    Mat4Fx {
        x_axis: m4_mul_vec4_s(a, b.x_axis),
        y_axis: m4_mul_vec4_s(a, b.y_axis),
        z_axis: m4_mul_vec4_s(a, b.z_axis),
        w_axis: m4_mul_vec4_s(a, b.w_axis),
    }
}

/// An affine matrix applied to a point: linear part plus translation.
pub open spec fn m4_tp3_s(m: Mat4Fx, p: Vec3Fx) -> Vec3Fx {
    Vec3Fx {
        x: fx_add_s(
            fx_add_s(
                fx_add_s(fx_mul_s(m.x_axis.x, p.x), fx_mul_s(m.y_axis.x, p.y)),
                fx_mul_s(m.z_axis.x, p.z),
            ),
            m.w_axis.x,
        ),
        y: fx_add_s(
            fx_add_s(
                fx_add_s(fx_mul_s(m.x_axis.y, p.x), fx_mul_s(m.y_axis.y, p.y)),
                fx_mul_s(m.z_axis.y, p.z),
            ),
            m.w_axis.y,
        ),
        z: fx_add_s(
            fx_add_s(
                fx_add_s(fx_mul_s(m.x_axis.z, p.x), fx_mul_s(m.y_axis.z, p.y)),
                fx_mul_s(m.z_axis.z, p.z),
            ),
            m.w_axis.z,
        ),
    }
}

/// The linear part of an affine application: the image of a point under
/// the matrix's upper-left block, the translation column ignored. The
/// summation order matches `m4_tp3_s`, which adds the translation last.
pub open spec fn m4_lin3_s(m: Mat4Fx, p: Vec3Fx) -> Vec3Fx {
    Vec3Fx {
        x: fx_add_s(
            fx_add_s(fx_mul_s(m.x_axis.x, p.x), fx_mul_s(m.y_axis.x, p.y)),
            fx_mul_s(m.z_axis.x, p.z),
        ),
        y: fx_add_s(
            fx_add_s(fx_mul_s(m.x_axis.y, p.x), fx_mul_s(m.y_axis.y, p.y)),
            fx_mul_s(m.z_axis.y, p.z),
        ),
        z: fx_add_s(
            fx_add_s(fx_mul_s(m.x_axis.z, p.x), fx_mul_s(m.y_axis.z, p.y)),
            fx_mul_s(m.z_axis.z, p.z),
        ),
    }
}

pub open spec fn m4_identity_s() -> Mat4Fx {
    Mat4Fx {
        x_axis: Vec4Fx { x: ONE, y: 0, z: 0, w: 0 },
        y_axis: Vec4Fx { x: 0, y: ONE, z: 0, w: 0 },
        z_axis: Vec4Fx { x: 0, y: 0, z: ONE, w: 0 },
        w_axis: Vec4Fx { x: 0, y: 0, z: 0, w: ONE },
    }
}

/// Translation by `t`.
pub open spec fn m4_translation_s(t: Vec3Fx) -> Mat4Fx {
    Mat4Fx {
        x_axis: Vec4Fx { x: ONE, y: 0, z: 0, w: 0 },
        y_axis: Vec4Fx { x: 0, y: ONE, z: 0, w: 0 },
        z_axis: Vec4Fx { x: 0, y: 0, z: ONE, w: 0 },
        w_axis: Vec4Fx { x: t.x, y: t.y, z: t.z, w: ONE },
    }
}

/// Rotation about the world Y axis, given the angle's cosine and sine.
pub open spec fn m4_rot_y_s(c: i64, s: i64) -> Mat4Fx {
    Mat4Fx {
        x_axis: Vec4Fx { x: c, y: 0, z: fx_neg_s(s), w: 0 },
        y_axis: Vec4Fx { x: 0, y: ONE, z: 0, w: 0 },
        z_axis: Vec4Fx { x: s, y: 0, z: c, w: 0 },
        w_axis: Vec4Fx { x: 0, y: 0, z: 0, w: ONE },
    }
}

/// Rotation about an arbitrary axis `k` (expected unit length), given the
/// angle's cosine and sine, by the Rodrigues formula.
pub open spec fn m4_axis_angle_s(k: Vec3Fx, c: i64, s: i64) -> Mat4Fx {
    let t: i64 = fx_sub_s(ONE, c);
    Mat4Fx {
        x_axis: Vec4Fx {
            x: fx_add_s(fx_mul_s(t, fx_mul_s(k.x, k.x)), c),
            y: fx_add_s(fx_mul_s(t, fx_mul_s(k.x, k.y)), fx_mul_s(s, k.z)),
            z: fx_sub_s(fx_mul_s(t, fx_mul_s(k.x, k.z)), fx_mul_s(s, k.y)),
            w: 0,
        },
        y_axis: Vec4Fx {
            x: fx_sub_s(fx_mul_s(t, fx_mul_s(k.x, k.y)), fx_mul_s(s, k.z)),
            y: fx_add_s(fx_mul_s(t, fx_mul_s(k.y, k.y)), c),
            z: fx_add_s(fx_mul_s(t, fx_mul_s(k.y, k.z)), fx_mul_s(s, k.x)),
            w: 0,
        },
        z_axis: Vec4Fx {
            x: fx_add_s(fx_mul_s(t, fx_mul_s(k.x, k.z)), fx_mul_s(s, k.y)),
            y: fx_sub_s(fx_mul_s(t, fx_mul_s(k.y, k.z)), fx_mul_s(s, k.x)),
            z: fx_add_s(fx_mul_s(t, fx_mul_s(k.z, k.z)), c),
            w: 0,
        },
        w_axis: Vec4Fx { x: 0, y: 0, z: 0, w: ONE },
    }
}

/// The first three components of a column, as a point-space vector.
pub open spec fn v4_xyz_s(v: Vec4Fx) -> Vec3Fx {
    Vec3Fx { x: v.x, y: v.y, z: v.z }
}

/// Determinant of the upper-left 3x3 block: the triple product of the columns.
pub open spec fn m4_det3_s(m: Mat4Fx) -> i64 {
    v3_dot_s(v4_xyz_s(m.x_axis), v3_cross_s(v4_xyz_s(m.y_axis), v4_xyz_s(m.z_axis)))
}

/// The affine inverse: cofactor inverse of the 3x3 block, and the negated
/// back-transformed translation. Meaningful only when `m4_det3_s(m) != 0`.
pub open spec fn m4_inverse_affine_s(m: Mat4Fx) -> Mat4Fx {
    let cx: Vec3Fx = v3_cross_s(v4_xyz_s(m.y_axis), v4_xyz_s(m.z_axis));
    let cy: Vec3Fx = v3_cross_s(v4_xyz_s(m.z_axis), v4_xyz_s(m.x_axis));
    let cz: Vec3Fx = v3_cross_s(v4_xyz_s(m.x_axis), v4_xyz_s(m.y_axis));
    let d: i64 = m4_det3_s(m);
    let lin: Mat4Fx = Mat4Fx {
        x_axis: Vec4Fx {
            x: fx_div_s(cx.x, d),
            y: fx_div_s(cy.x, d),
            z: fx_div_s(cz.x, d),
            w: 0,
        },
        y_axis: Vec4Fx {
            x: fx_div_s(cx.y, d),
            y: fx_div_s(cy.y, d),
            z: fx_div_s(cz.y, d),
            w: 0,
        },
        z_axis: Vec4Fx {
            x: fx_div_s(cx.z, d),
            y: fx_div_s(cy.z, d),
            z: fx_div_s(cz.z, d),
            w: 0,
        },
        w_axis: Vec4Fx { x: 0, y: 0, z: 0, w: ONE },
    };
    let bt: Vec3Fx = m4_tp3_s(lin, v4_xyz_s(m.w_axis));
    Mat4Fx {
        x_axis: lin.x_axis,
        y_axis: lin.y_axis,
        z_axis: lin.z_axis,
        w_axis: Vec4Fx { x: fx_neg_s(bt.x), y: fx_neg_s(bt.y), z: fx_neg_s(bt.z), w: ONE },
    }
}

pub fn v4(x: i64, y: i64, z: i64, w: i64) -> (r: Vec4Fx)
    ensures
        r == (Vec4Fx { x, y, z, w }),
{
    Vec4Fx { x, y, z, w }
}

fn v4_add(a: Vec4Fx, b: Vec4Fx) -> (r: Vec4Fx)
    ensures
        r == v4_add_s(a, b),
{
    Vec4Fx { x: fx_add(a.x, b.x), y: fx_add(a.y, b.y), z: fx_add(a.z, b.z), w: fx_add(a.w, b.w) }
}

fn v4_scale(a: Vec4Fx, k: i64) -> (r: Vec4Fx)
    ensures
        r == v4_scale_s(a, k),
{
    Vec4Fx { x: fx_mul(a.x, k), y: fx_mul(a.y, k), z: fx_mul(a.z, k), w: fx_mul(a.w, k) }
}

pub fn m4_mul_vec4(m: &Mat4Fx, v: Vec4Fx) -> (r: Vec4Fx)
    ensures
        r == m4_mul_vec4_s(*m, v),
{
    v4_add(
        v4_add(v4_add(v4_scale(m.x_axis, v.x), v4_scale(m.y_axis, v.y)), v4_scale(m.z_axis, v.z)),
        v4_scale(m.w_axis, v.w),
    )
}

pub fn m4_mul(a: &Mat4Fx, b: &Mat4Fx) -> (r: Mat4Fx)
    ensures
        r == m4_mul_s(*a, *b),
{
    Mat4Fx {
        x_axis: m4_mul_vec4(a, b.x_axis),
        y_axis: m4_mul_vec4(a, b.y_axis),
        z_axis: m4_mul_vec4(a, b.z_axis),
        w_axis: m4_mul_vec4(a, b.w_axis),
    }
}

pub fn m4_tp3(m: &Mat4Fx, p: Vec3Fx) -> (r: Vec3Fx)
    ensures
        r == m4_tp3_s(*m, p),
{
    Vec3Fx {
        x: fx_add(
            fx_add(
                fx_add(fx_mul(m.x_axis.x, p.x), fx_mul(m.y_axis.x, p.y)),
                fx_mul(m.z_axis.x, p.z),
            ),
            m.w_axis.x,
        ),
        y: fx_add(
            fx_add(
                fx_add(fx_mul(m.x_axis.y, p.x), fx_mul(m.y_axis.y, p.y)),
                fx_mul(m.z_axis.y, p.z),
            ),
            m.w_axis.y,
        ),
        z: fx_add(
            fx_add(
                fx_add(fx_mul(m.x_axis.z, p.x), fx_mul(m.y_axis.z, p.y)),
                fx_mul(m.z_axis.z, p.z),
            ),
            m.w_axis.z,
        ),
    }
}

pub fn m4_identity() -> (r: Mat4Fx)
    ensures
        r == m4_identity_s(),
{
    Mat4Fx {
        x_axis: Vec4Fx { x: ONE, y: 0, z: 0, w: 0 },
        y_axis: Vec4Fx { x: 0, y: ONE, z: 0, w: 0 },
        z_axis: Vec4Fx { x: 0, y: 0, z: ONE, w: 0 },
        w_axis: Vec4Fx { x: 0, y: 0, z: 0, w: ONE },
    }
}

pub fn m4_translation(t: Vec3Fx) -> (r: Mat4Fx)
    ensures
        r == m4_translation_s(t),
{
    Mat4Fx {
        x_axis: Vec4Fx { x: ONE, y: 0, z: 0, w: 0 },
        y_axis: Vec4Fx { x: 0, y: ONE, z: 0, w: 0 },
        z_axis: Vec4Fx { x: 0, y: 0, z: ONE, w: 0 },
        w_axis: Vec4Fx { x: t.x, y: t.y, z: t.z, w: ONE },
    }
}

pub fn m4_rot_y(c: i64, s: i64) -> (r: Mat4Fx)
    ensures
        r == m4_rot_y_s(c, s),
{
    Mat4Fx {
        x_axis: Vec4Fx { x: c, y: 0, z: fx_neg(s), w: 0 },
        y_axis: Vec4Fx { x: 0, y: ONE, z: 0, w: 0 },
        z_axis: Vec4Fx { x: s, y: 0, z: c, w: 0 },
        w_axis: Vec4Fx { x: 0, y: 0, z: 0, w: ONE },
    }
}

pub fn m4_axis_angle(k: Vec3Fx, c: i64, s: i64) -> (r: Mat4Fx)
    ensures
        r == m4_axis_angle_s(k, c, s),
{
    let t: i64 = fx_sub(ONE, c);
    Mat4Fx {
        x_axis: Vec4Fx {
            x: fx_add(fx_mul(t, fx_mul(k.x, k.x)), c),
            y: fx_add(fx_mul(t, fx_mul(k.x, k.y)), fx_mul(s, k.z)),
            z: fx_sub(fx_mul(t, fx_mul(k.x, k.z)), fx_mul(s, k.y)),
            w: 0,
        },
        y_axis: Vec4Fx {
            x: fx_sub(fx_mul(t, fx_mul(k.x, k.y)), fx_mul(s, k.z)),
            y: fx_add(fx_mul(t, fx_mul(k.y, k.y)), c),
            z: fx_add(fx_mul(t, fx_mul(k.y, k.z)), fx_mul(s, k.x)),
            w: 0,
        },
        z_axis: Vec4Fx {
            x: fx_add(fx_mul(t, fx_mul(k.x, k.z)), fx_mul(s, k.y)),
            y: fx_sub(fx_mul(t, fx_mul(k.y, k.z)), fx_mul(s, k.x)),
            z: fx_add(fx_mul(t, fx_mul(k.z, k.z)), c),
            w: 0,
        },
        w_axis: Vec4Fx { x: 0, y: 0, z: 0, w: ONE },
    }
}

pub fn v4_xyz(v: Vec4Fx) -> (r: Vec3Fx)
    ensures
        r == v4_xyz_s(v),
{
    Vec3Fx { x: v.x, y: v.y, z: v.z }
}

pub fn m4_det3(m: &Mat4Fx) -> (r: i64)
    ensures
        r == m4_det3_s(*m),
{
    v3_dot(v4_xyz(m.x_axis), v3_cross(v4_xyz(m.y_axis), v4_xyz(m.z_axis)))
}

pub fn m4_inverse_affine(m: &Mat4Fx) -> (r: Mat4Fx)
    requires
        m4_det3_s(*m) != 0,
    ensures
        r == m4_inverse_affine_s(*m),
{
    let cx: Vec3Fx = v3_cross(v4_xyz(m.y_axis), v4_xyz(m.z_axis));
    let cy: Vec3Fx = v3_cross(v4_xyz(m.z_axis), v4_xyz(m.x_axis));
    let cz: Vec3Fx = v3_cross(v4_xyz(m.x_axis), v4_xyz(m.y_axis));
    let d: i64 = m4_det3(m);
    let lin: Mat4Fx = Mat4Fx {
        x_axis: Vec4Fx { x: fx_div(cx.x, d), y: fx_div(cy.x, d), z: fx_div(cz.x, d), w: 0 },
        y_axis: Vec4Fx { x: fx_div(cx.y, d), y: fx_div(cy.y, d), z: fx_div(cz.y, d), w: 0 },
        z_axis: Vec4Fx { x: fx_div(cx.z, d), y: fx_div(cy.z, d), z: fx_div(cz.z, d), w: 0 },
        w_axis: Vec4Fx { x: 0, y: 0, z: 0, w: ONE },
    };
    let bt: Vec3Fx = m4_tp3(&lin, v4_xyz(m.w_axis));
    Mat4Fx {
        x_axis: lin.x_axis,
        y_axis: lin.y_axis,
        z_axis: lin.z_axis,
        w_axis: Vec4Fx { x: fx_neg(bt.x), y: fx_neg(bt.y), z: fx_neg(bt.z), w: ONE },
    }
}

/// Multiplying by the identity on the left changes nothing: the fixed-point
/// products by one and zero are exact.
pub proof fn lemma_m4_mul_identity_left(m: Mat4Fx)
    ensures
        m4_mul_s(m4_identity_s(), m) == m,
{
    lemma_v4_identity_image(m.x_axis);
    lemma_v4_identity_image(m.y_axis);
    lemma_v4_identity_image(m.z_axis);
    lemma_v4_identity_image(m.w_axis);
}

proof fn lemma_v4_identity_image(v: Vec4Fx)
    ensures
        m4_mul_vec4_s(m4_identity_s(), v) == v,
{
    lemma_fx_mul_one(v.x);
    lemma_fx_mul_one(v.y);
    lemma_fx_mul_one(v.z);
    lemma_fx_mul_one(v.w);
    lemma_fx_mul_zero(v.x);
    lemma_fx_mul_zero(v.y);
    lemma_fx_mul_zero(v.z);
    lemma_fx_mul_zero(v.w);
}

/// An affine matrix moves the origin to exactly its translation column.
pub proof fn lemma_tp3_zero(m: Mat4Fx)
    ensures
        m4_tp3_s(m, crate::vec3::v3_zero_s()) == v4_xyz_s(m.w_axis),
{
    lemma_fx_mul_zero(m.x_axis.x);
    lemma_fx_mul_zero(m.y_axis.x);
    lemma_fx_mul_zero(m.z_axis.x);
    lemma_fx_mul_zero(m.x_axis.y);
    lemma_fx_mul_zero(m.y_axis.y);
    lemma_fx_mul_zero(m.z_axis.y);
    lemma_fx_mul_zero(m.x_axis.z);
    lemma_fx_mul_zero(m.y_axis.z);
    lemma_fx_mul_zero(m.z_axis.z);
}

} // verus!
