//! The viewport controller's gesture algebra: per-frame pointer input
//! turned into a camera-transform update. Exactly one gesture applies per
//! frame, first applicable in the fixed order orbit, dolly, pan.

use vstd::prelude::*;
use crate::fixed::{
    fx_mul, fx_mul_s, fx_neg, fx_neg_s, fx_add_s, lemma_fx_mul_one, lemma_fx_mul_zero, ONE,
};
use crate::mat4::{
    lemma_m4_mul_identity_left, m4_affine_s, m4_axis_angle, m4_axis_angle_s, m4_identity_s, m4_mul,
    m4_mul_s, m4_rot_y, m4_rot_y_s, m4_tp3, m4_tp3_s, m4_translation, m4_translation_s, v4_xyz,
    v4_xyz_s, Mat4Fx, Vec4Fx,
};
use crate::trig::{sincos, sincos_s};
use crate::vec3::{v3_norm, v3_norm_s, v3_scale, v3_scale_s, v3_zero, v3_zero_s, Vec3Fx};

verus! {

/// One frame's pointer snapshot: drag delta, scroll delta, and the
/// designated modifier and button flags.
#[derive(Clone, Copy, PartialEq, Eq, Structural, Debug)]
pub struct PointerInput {
    pub drag_dx: i64,
    pub drag_dy: i64,
    pub scroll: i64,
    pub modifier: bool,
    pub button: bool,
}

/// Orbit is triggered by the modifier held with the button up.
pub open spec fn orbit_active_s(i: PointerInput) -> bool {
    i.modifier && !i.button
}

/// Dolly is triggered by a nonzero scroll delta.
pub open spec fn dolly_active_s(i: PointerInput) -> bool {
    i.scroll != 0
}

/// Pan is triggered by the modifier and the button held together.
pub open spec fn pan_active_s(i: PointerInput) -> bool {
    i.modifier && i.button
}

/// The orbit update: rotate about the world Y axis by `dx * sens`, and
/// about the camera's local X axis by `dy * sens`, composed onto the
/// previous transform.
pub open spec fn orbit_update_s(xform: Mat4Fx, dx: i64, dy: i64, sens: i64) -> Mat4Fx {
    let csy: (i64, i64) = sincos_s(fx_mul_s(dx, sens));
    let csx: (i64, i64) = sincos_s(fx_mul_s(dy, sens));
    let axis: Vec3Fx = v4_xyz_s(xform.x_axis);
    m4_mul_s(m4_rot_y_s(csy.0, csy.1), m4_mul_s(m4_axis_angle_s(axis, csx.0, csx.1), xform))
}

/// The dolly update: translate against the unit vector from the world
/// origin to the camera position, by `scroll * sens`, so that a positive
/// scroll moves the camera toward the origin.
pub open spec fn dolly_update_s(xform: Mat4Fx, scroll: i64, sens: i64) -> Mat4Fx {
    let pos: Vec3Fx = m4_tp3_s(xform, v3_zero_s());
    let dir: Vec3Fx = v3_norm_s(pos);
    let step: i64 = fx_mul_s(scroll, sens);
    m4_mul_s(m4_translation_s(v3_scale_s(dir, fx_neg_s(step))), xform)
}

/// The pan update: translate along the camera's local X and Y axes by
/// the negated drag delta times the sensitivity.
pub open spec fn pan_update_s(xform: Mat4Fx, dx: i64, dy: i64, sens: i64) -> Mat4Fx {
    let px: Vec3Fx = v3_scale_s(v4_xyz_s(xform.x_axis), fx_neg_s(fx_mul_s(dx, sens)));
    let py: Vec3Fx = v3_scale_s(v4_xyz_s(xform.y_axis), fx_neg_s(fx_mul_s(dy, sens)));
    m4_mul_s(m4_translation_s(px), m4_mul_s(m4_translation_s(py), xform))
}

/// One frame's camera update: the first applicable gesture wins, in the
/// order orbit, dolly, pan; with no gesture the transform is unchanged.
pub open spec fn update_camera_s(xform: Mat4Fx, i: PointerInput, sens: i64) -> Mat4Fx {
    if orbit_active_s(i) {
        orbit_update_s(xform, i.drag_dx, i.drag_dy, sens)
    } else if dolly_active_s(i) {
        dolly_update_s(xform, i.scroll, sens)
    } else if pan_active_s(i) {
        pan_update_s(xform, i.drag_dx, i.drag_dy, sens)
    } else {
        xform
    }
}

pub fn update_camera(xform: &Mat4Fx, i: PointerInput, sens: i64) -> (r: Mat4Fx)
    ensures
        r == update_camera_s(*xform, i, sens),
{
    if i.modifier && !i.button {
        let csy: (i64, i64) = sincos(fx_mul(i.drag_dx, sens));
        let csx: (i64, i64) = sincos(fx_mul(i.drag_dy, sens));
        let axis: Vec3Fx = v4_xyz(xform.x_axis);
        let ry: Mat4Fx = m4_rot_y(csy.0, csy.1);
        let rx: Mat4Fx = m4_axis_angle(axis, csx.0, csx.1);
        m4_mul(&ry, &m4_mul(&rx, xform))
    } else if i.scroll != 0 {
        let pos: Vec3Fx = m4_tp3(xform, v3_zero());
        let dir: Vec3Fx = v3_norm(pos);
        let step: i64 = fx_mul(i.scroll, sens);
        m4_mul(&m4_translation(v3_scale(dir, fx_neg(step))), xform)
    } else if i.modifier && i.button {
        let px: Vec3Fx = v3_scale(v4_xyz(xform.x_axis), fx_neg(fx_mul(i.drag_dx, sens)));
        let py: Vec3Fx = v3_scale(v4_xyz(xform.y_axis), fx_neg(fx_mul(i.drag_dy, sens)));
        m4_mul(&m4_translation(px), &m4_mul(&m4_translation(py), xform))
    } else {
        *xform
    }
}

/// A rotation by a zero angle is exactly the identity matrix, about the
/// world Y axis and about any axis.
proof fn lemma_zero_rotations(axis: Vec3Fx)
    ensures
        m4_rot_y_s(ONE, 0) == m4_identity_s(),
        m4_axis_angle_s(axis, ONE, 0) == m4_identity_s(),
{
    lemma_fx_mul_zero(fx_mul_s(axis.x, axis.x));
    lemma_fx_mul_zero(fx_mul_s(axis.x, axis.y));
    lemma_fx_mul_zero(fx_mul_s(axis.x, axis.z));
    lemma_fx_mul_zero(fx_mul_s(axis.y, axis.y));
    lemma_fx_mul_zero(fx_mul_s(axis.y, axis.z));
    lemma_fx_mul_zero(fx_mul_s(axis.z, axis.z));
    lemma_fx_mul_zero(axis.x);
    lemma_fx_mul_zero(axis.y);
    lemma_fx_mul_zero(axis.z);
}

/// Orbiting with a zero drag delta leaves the camera transform exactly
/// unchanged: the identity update.
pub proof fn lemma_orbit_zero_drag(xform: Mat4Fx, i: PointerInput, sens: i64)
    requires
        orbit_active_s(i),
        i.drag_dx == 0,
        i.drag_dy == 0,
    ensures
        update_camera_s(xform, i, sens) == xform,
{
    lemma_fx_mul_zero(sens);
    lemma_zero_rotations(v4_xyz_s(xform.x_axis));
    lemma_m4_mul_identity_left(xform);
    lemma_m4_mul_identity_left(m4_mul_s(m4_identity_s(), xform));
}

/// Full-circle invariance: an orbit drag whose angle comes to exactly
/// the fixed-point two-pi (one full turn about Y, no vertical term)
/// leaves the camera transform exactly unchanged, since the angle
/// reduces to zero and a zero-angle rotation is exactly the identity.
pub proof fn lemma_orbit_full_turn(xform: Mat4Fx, i: PointerInput, sens: i64)
    requires
        orbit_active_s(i),
        fx_mul_s(i.drag_dx, sens) == crate::trig::TWO_PI_FX,
        fx_mul_s(i.drag_dy, sens) == 0,
    ensures
        update_camera_s(xform, i, sens) == xform,
{
    assert(crate::fixed::abs_i(crate::trig::TWO_PI_FX as int) % (crate::trig::TWO_PI_FX as int)
        == 0);
    assert(crate::trig::reduce_angle_s(crate::trig::TWO_PI_FX) == 0);
    assert(crate::trig::cos_core_s(0) == ONE);
    assert(crate::trig::sin_core_s(0) == 0);
    assert(sincos_s(crate::trig::TWO_PI_FX) == ((ONE, 0i64)));
    lemma_zero_rotations(v4_xyz_s(xform.x_axis));
    lemma_m4_mul_identity_left(xform);
    lemma_m4_mul_identity_left(m4_mul_s(m4_identity_s(), xform));
}

/// With no gesture active — no orbit or pan trigger and a zero scroll —
/// the camera transform is exactly unchanged.
pub proof fn lemma_no_gesture(xform: Mat4Fx, i: PointerInput, sens: i64)
    requires
        !orbit_active_s(i),
        i.scroll == 0,
        !pan_active_s(i),
    ensures
        update_camera_s(xform, i, sens) == xform,
{
}

/// Composing a translation onto an affine transform changes exactly the
/// translation column, by saturating addition of the offset.
pub proof fn lemma_translation_apply(d: Vec3Fx, m: Mat4Fx)
    requires
        m4_affine_s(m),
    ensures
        m4_mul_s(m4_translation_s(d), m) == (Mat4Fx {
            x_axis: m.x_axis,
            y_axis: m.y_axis,
            z_axis: m.z_axis,
            w_axis: Vec4Fx {
                x: fx_add_s(m.w_axis.x, d.x),
                y: fx_add_s(m.w_axis.y, d.y),
                z: fx_add_s(m.w_axis.z, d.z),
                w: ONE,
            },
        }),
{
    lemma_translation_image(d, m.x_axis);
    lemma_translation_image(d, m.y_axis);
    lemma_translation_image(d, m.z_axis);
    lemma_translation_image(d, m.w_axis);
}

proof fn lemma_translation_image(d: Vec3Fx, v: Vec4Fx)
    ensures
        v.w == 0 ==> crate::mat4::m4_mul_vec4_s(m4_translation_s(d), v) == v,
        v.w == ONE ==> crate::mat4::m4_mul_vec4_s(m4_translation_s(d), v) == (Vec4Fx {
            x: fx_add_s(v.x, d.x),
            y: fx_add_s(v.y, d.y),
            z: fx_add_s(v.z, d.z),
            w: ONE,
        }),
{
    lemma_fx_mul_one(v.x);
    lemma_fx_mul_one(v.y);
    lemma_fx_mul_one(v.z);
    lemma_fx_mul_one(ONE);
    lemma_fx_mul_zero(v.x);
    lemma_fx_mul_zero(v.y);
    lemma_fx_mul_zero(v.z);
    lemma_fx_mul_zero(d.x);
    lemma_fx_mul_zero(d.y);
    lemma_fx_mul_zero(d.z);
    lemma_fx_mul_one(d.x);
    lemma_fx_mul_one(d.y);
    lemma_fx_mul_one(d.z);
}

/// For a camera on the axis toward the world origin, the dolly gesture
/// moves it strictly closer, by exactly `scroll * sensitivity`: the
/// distance to the origin shrinks by the step, so the decrease is
/// monotonic in the scroll magnitude. A step so small that it rounds to
/// zero moves nothing, and one past the origin overshoots, so both are
/// excluded by the bounds.
pub proof fn lemma_dolly_axis_strictly_closer(z: i64, scroll: i64, sens: i64)
    requires
        0 < z,
        0 < fx_mul_s(scroll, sens) <= z,
    ensures
        ({
            let x0: Mat4Fx = m4_translation_s(Vec3Fx { x: 0, y: 0, z });
            let r: Mat4Fx = dolly_update_s(x0, scroll, sens);
            r.w_axis.x == 0 && r.w_axis.y == 0 && r.w_axis.z == z - fx_mul_s(scroll, sens)
                && 0 <= r.w_axis.z < z
        }),
{
    let x0: Mat4Fx = m4_translation_s(Vec3Fx { x: 0, y: 0, z });
    let st: i64 = fx_mul_s(scroll, sens);
    crate::mat4::lemma_tp3_zero(x0);
    let pos: Vec3Fx = m4_tp3_s(x0, v3_zero_s());
    assert(pos == (Vec3Fx { x: 0, y: 0, z }));
    assert(crate::fixed::is_sqrt(z * z, z as int)) by (nonlinear_arith)
        requires
            0 < z,
    ;
    crate::fixed::lemma_sqrt_unique(z * z, z as int, crate::fixed::sqrt_s(z * z));
    assert(crate::vec3::v3_len_s(pos) == z);
    vstd::arithmetic::div_mod::lemma_div_multiples_vanish(65536, z as int);
    assert(crate::fixed::fx_div_s(z, z) == ONE);
    assert(crate::fixed::fx_div_s(0, z) == 0);
    let dir: Vec3Fx = v3_norm_s(pos);
    assert(dir == (Vec3Fx { x: 0, y: 0, z: ONE }));
    lemma_fx_mul_zero(fx_neg_s(st));
    lemma_fx_mul_one(fx_neg_s(st));
    let d: Vec3Fx = v3_scale_s(dir, fx_neg_s(st));
    assert(d == (Vec3Fx { x: 0, y: 0, z: (-st) as i64 }));
    lemma_translation_apply(d, x0);
}

/// The dolly gesture changes only the camera's translation, and moves it
/// by exactly the negated step along the unit direction from the world
/// origin to the camera.
pub proof fn lemma_dolly_translation(xform: Mat4Fx, scroll: i64, sens: i64)
    requires
        m4_affine_s(xform),
    ensures
        ({
            let d: Vec3Fx = v3_scale_s(
                v3_norm_s(m4_tp3_s(xform, v3_zero_s())),
                fx_neg_s(fx_mul_s(scroll, sens)),
            );
            dolly_update_s(xform, scroll, sens) == (Mat4Fx {
                x_axis: xform.x_axis,
                y_axis: xform.y_axis,
                z_axis: xform.z_axis,
                w_axis: Vec4Fx {
                    x: fx_add_s(xform.w_axis.x, d.x),
                    y: fx_add_s(xform.w_axis.y, d.y),
                    z: fx_add_s(xform.w_axis.z, d.z),
                    w: ONE,
                },
            })
        }),
{
    let d: Vec3Fx = v3_scale_s(
        v3_norm_s(m4_tp3_s(xform, v3_zero_s())),
        fx_neg_s(fx_mul_s(scroll, sens)),
    );
    lemma_translation_apply(d, xform);
}

} // verus!
