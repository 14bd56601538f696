//! The perspective camera: world point to normalized device coordinates,
//! or a clipped outcome, plus the distance and attenuation queries the
//! shapes share.

use vstd::prelude::*;
use crate::fixed::{
    clamp01, clamp01_s, fx_add_s, fx_div, fx_div_s, fx_mul, fx_mul_s, fx_neg, fx_neg_s, fx_sub,
    fx_sub_s, fx_add, ONE,
};
use crate::mat4::{
    lemma_tp3_zero, m4_det3_s, m4_inverse_affine, m4_inverse_affine_s, m4_lin3_s, m4_tp3,
    m4_tp3_s, v4_xyz_s, Mat4Fx,
};
use crate::vec3::{v3_dist, v3_dist_s, v3_zero, v3_zero_s, Vec3Fx};

verus! {

/// Half of the fixed horizontal-aperture constant (0.209549993277), in
/// fixed point. The projection scale is `focal_length` divided by this:
/// the field of view is `2*atan((aperture/2)/focal_length)`, and the
/// projection uses the reciprocal of that angle's half tangent.
pub const HALF_APERTURE_FX: i64 = 6867;

#[derive(Clone, Copy, PartialEq, Eq, Structural, Debug)]
pub struct Perspective {
    pub focal_length: i64,
    pub xform: Mat4Fx,
    pub aspect_ratio: i64,
    pub near: i64,
    pub far: i64,
}

impl Perspective {
    /// The camera invariant: positive near plane in front of the far
    /// plane, a usable aspect ratio, and an invertible transform.
    pub open spec fn wf(self) -> bool {
        0 < self.near < self.far && self.aspect_ratio > 0 && m4_det3_s(self.xform) != 0
    }

    pub fn new(focal_length: i64, xform: Mat4Fx, aspect_ratio: i64, near: i64, far: i64) -> (r:
        Perspective)
        ensures
            r == (Perspective { focal_length, xform, aspect_ratio, near, far }),
    {
        Perspective { focal_length, xform, aspect_ratio, near, far }
    }

    /// The camera's world position: the transform applied to the origin,
    /// with the world Y flip of the projection convention.
    pub open spec fn center_s(self) -> Vec3Fx {
        flip_y_s(m4_tp3_s(self.xform, v3_zero_s()))
    }

    pub fn get_center(&self) -> (r: Vec3Fx)
        ensures
            r == self.center_s(),
    {
        flip_y(m4_tp3(&self.xform, v3_zero()))
    }

    pub fn get_xform(&self) -> (r: Mat4Fx)
        ensures
            r == self.xform,
    {
        self.xform
    }

    pub fn get_far(&self) -> (r: i64)
        ensures
            r == self.far,
    {
        self.far
    }

    /// Euclidean distance from the camera center to a world point.
    pub open spec fn dist_s(self, p: Vec3Fx) -> i64 {
        v3_dist_s(self.center_s(), p)
    }

    pub fn dist_to_point(&self, p: Vec3Fx) -> (r: i64)
        ensures
            r == self.dist_s(p),
            r >= 0,
    {
        v3_dist(self.get_center(), p)
    }

    /// The point in camera space: world Y flipped, then the inverse of
    /// the camera transform applied.
    pub open spec fn cam_space_s(self, p: Vec3Fx) -> Vec3Fx {
        m4_tp3_s(m4_inverse_affine_s(self.xform), flip_y_s(p))
    }

    /// The vertical projection scale: `focal_length / (aperture/2)`.
    pub open spec fn proj_scale_y_s(self) -> i64 {
        fx_div_s(self.focal_length, HALF_APERTURE_FX)
    }

    /// The horizontal projection scale: the vertical one over the aspect ratio.
    pub open spec fn proj_scale_x_s(self) -> i64 {
        fx_div_s(self.proj_scale_y_s(), self.aspect_ratio)
    }

    /// The depth scale `far / (near - far)` of the projection matrix.
    pub open spec fn depth_scale_s(self) -> i64 {
        fx_div_s(self.far, fx_sub_s(self.near, self.far))
    }

    /// The perspective division of a camera-space point with `z < 0`.
    pub open spec fn ndc_s(self, pc: Vec3Fx) -> Vec3Fx {
        let nz: i64 = fx_neg_s(pc.z);
        let ds: i64 = self.depth_scale_s();
        Vec3Fx {
            x: fx_div_s(fx_mul_s(self.proj_scale_x_s(), pc.x), nz),
            y: fx_div_s(fx_mul_s(self.proj_scale_y_s(), pc.y), nz),
            z: fx_div_s(fx_add_s(fx_mul_s(ds, pc.z), fx_mul_s(ds, self.near)), nz),
        }
    }

    /// Projection of a world point: `None` is the clipped outcome, for a
    /// point behind or at the camera, or projected to a depth at or
    /// before the near plane.
    pub open spec fn project_s(self, p: Vec3Fx) -> Option<Vec3Fx> {
        let pc: Vec3Fx = self.cam_space_s(p);
        if pc.z >= 0 {
            None
        } else {
            let q: Vec3Fx = self.ndc_s(pc);
            if q.z <= self.near {
                None
            } else {
                Some(q)
            }
        }
    }

    /// Project a world point to normalized device coordinates.
    ///
    /// Every point with camera-space depth at or behind the camera is
    /// clipped, and so is every point whose projected depth does not
    /// clear the near plane.
    pub fn project_point(&self, p: Vec3Fx) -> (r: Option<Vec3Fx>)
        requires
            self.wf(),
        ensures
            r == self.project_s(p),
            self.cam_space_s(p).z >= 0 ==> r is None,
            self.cam_space_s(p).z < 0 && self.ndc_s(self.cam_space_s(p)).z <= self.near ==> r
                is None,
            r is Some ==> r->Some_0 == self.ndc_s(self.cam_space_s(p)),
    {
        let inv: Mat4Fx = m4_inverse_affine(&self.xform);
        let pc: Vec3Fx = m4_tp3(&inv, flip_y(p));
        if pc.z >= 0 {
            return None;
        }
        let h: i64 = fx_div(self.focal_length, HALF_APERTURE_FX);
        let w: i64 = fx_div(h, self.aspect_ratio);
        let ds: i64 = fx_div(self.far, fx_sub(self.near, self.far));
        let nz: i64 = fx_neg(pc.z);
        let q: Vec3Fx = Vec3Fx {
            x: fx_div(fx_mul(w, pc.x), nz),
            y: fx_div(fx_mul(h, pc.y), nz),
            z: fx_div(fx_add(fx_mul(ds, pc.z), fx_mul(ds, self.near)), nz),
        };
        if q.z <= self.near {
            None
        } else {
            Some(q)
        }
    }

    /// The distance-based attenuation factor for a world-space pivot:
    /// `1 - dist/far`, clamped into [0, 1] for every distance.
    pub open spec fn att_s(self, pivot: Vec3Fx) -> i64 {
        clamp01_s(fx_sub_s(ONE, fx_div_s(self.dist_s(pivot), self.far)))
    }

    pub fn attenuation(&self, pivot: Vec3Fx) -> (r: i64)
        requires
            self.wf(),
        ensures
            r == self.att_s(pivot),
            0 <= r <= ONE,
    {
        let d: i64 = self.dist_to_point(pivot);
        clamp01(fx_sub(ONE, fx_div(d, self.far)))
    }
}

/// Round trip of a shape's pivot: transforming the local origin by the
/// shape's transform and projecting it is exactly the same as projecting
/// the transform's translation column directly.
pub proof fn lemma_pivot_round_trip(c: Perspective, m: Mat4Fx)
    ensures
        c.project_s(m4_tp3_s(m, v3_zero_s())) == c.project_s(v4_xyz_s(m.w_axis)),
{
    lemma_tp3_zero(m);
}

/// Projecting the camera's own center under a non-degenerate transform
/// is always the clipped outcome: the center maps back to the
/// camera-space origin, and a depth of zero is not in front of the
/// camera. The two side conditions keep the translation column and its
/// back-transform away from the `i64` saturation edge, where the
/// fixed-point cancellation is no longer exact.
pub proof fn lemma_center_clipped(c: Perspective)
    requires
        c.wf(),
        c.xform.w_axis.y != i64::MIN,
        m4_lin3_s(m4_inverse_affine_s(c.xform), v4_xyz_s(c.xform.w_axis)).z != i64::MIN,
    ensures
        c.project_s(c.center_s()) is None,
{
    let t: Vec3Fx = v4_xyz_s(c.xform.w_axis);
    let inv: Mat4Fx = m4_inverse_affine_s(c.xform);
    lemma_tp3_zero(c.xform);
    assert(c.center_s() == flip_y_s(t));
    assert(flip_y_s(flip_y_s(t)) == t);
    let lz: i64 = m4_lin3_s(inv, t).z;
    assert(inv.w_axis.z == fx_neg_s(lz));
    assert(c.cam_space_s(c.center_s()).z == fx_add_s(lz, fx_neg_s(lz)));
    assert(fx_add_s(lz, fx_neg_s(lz)) == 0);
}

/// The world-Y flip of the projection convention.
pub open spec fn flip_y_s(p: Vec3Fx) -> Vec3Fx {
    Vec3Fx { x: p.x, y: fx_neg_s(p.y), z: p.z }
}

pub fn flip_y(p: Vec3Fx) -> (r: Vec3Fx)
    ensures
        r == flip_y_s(p),
{
    Vec3Fx { x: p.x, y: fx_neg(p.y), z: p.z }
}

} // verus!
