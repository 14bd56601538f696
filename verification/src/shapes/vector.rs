//! The arrow glyph: a straight shaft from the pivot along the direction,
//! and a tip drawn as a tapering multi-turn spiral polyline, since the
//! canvas has no filled 3D cone.

use vstd::prelude::*;
use crate::camera::Perspective;
use crate::fixed::{fx_add, fx_add_s, fx_div, fx_div_s, fx_mul, fx_mul_s, fx_sub, fx_sub_s, ONE};
use crate::mat4::{m4_tp3, m4_tp3_s, Mat4Fx};
use crate::screen::{
    lemma_prims_view_empty, lemma_prims_view_push, opt_seq, prims_view, project_to_screen,
    project_screen_s, Color, PrimView, ScreenPos, ScreenPrim, Stroke, TENTH_FX,
};
use crate::trig::{sincos, sincos_s, PI_FX};
use crate::vec3::{
    v3, v3_add, v3_add_s, v3_cross, v3_cross_s, v3_norm, v3_norm_s, v3_scale, v3_scale_s, v3_zero,
    v3_zero_s, Vec3Fx,
};

verus! {

/// The tip length as a fraction of the shaft: 0.07 in fixed point.
pub const ARROW_FX: i64 = 4588;

/// The tip overshoot factor: 2.2 in fixed point.
pub const ARROW_OVER_FX: i64 = 144179;

/// The spiral's total turn: eighty pi in fixed point.
pub const SPIRAL_TURN_FX: i64 = 16470994;

/// The spiral sample count as a fixed-point divisor: 600.
pub const SPIRAL_DIV_FX: i64 = 39321600;

/// The shaft's base stroke width: 4 in fixed point.
pub const SHAFT_STROKE_FX: i64 = 262144;

#[derive(Clone, Copy, PartialEq, Eq, Structural, Debug)]
pub struct Vector {
    pub size: i64,
    pub dir: Vec3Fx,
    pub xform: Mat4Fx,
    pub color: Color,
}

pub open spec fn vector_pivot_s(v: Vector) -> Vec3Fx {
    m4_tp3_s(v.xform, v3_zero_s())
}

pub open spec fn vector_end_s(v: Vector) -> Vec3Fx {
    m4_tp3_s(v.xform, v3_scale_s(v.dir, v.size))
}

/// The stroke width: the base width scaled by the softened attenuation.
pub open spec fn vector_stroke_w_s(v: Vector, cam: Perspective) -> i64 {
    fx_mul_s(SHAFT_STROKE_FX, fx_add_s(cam.att_s(vector_pivot_s(v)), TENTH_FX))
}

/// The spiral's first local axis: a guarded-normalized vector orthogonal
/// to the direction, from a cross with a fixed skew vector.
pub open spec fn vector_x_axis_s(v: Vector) -> Vec3Fx {
    v3_norm_s(v3_cross_s(v.dir, Vec3Fx { x: PI_FX, y: PI_FX, z: PI_FX }))
}

/// The spiral's second local axis, orthogonal to the first and the shaft.
pub open spec fn vector_z_axis_s(v: Vector) -> Vec3Fx {
    v3_norm_s(v3_cross_s(vector_x_axis_s(v), v.dir))
}

/// The world position of spiral sample `r` of 600: a point winding
/// around the shaft tip with a tapering radius.
pub open spec fn spiral_point_s(v: Vector, r: int) -> Vec3Fx {
    let u: i64 = fx_div_s((r * 65536) as i64, SPIRAL_DIV_FX);
    let cu: i64 = fx_mul_s(u, SPIRAL_TURN_FX);
    let aw: i64 = fx_mul_s(ARROW_FX, fx_sub_s(ONE, u));
    let cs: (i64, i64) = sincos_s(cu);
    let m: i64 = fx_add_s(fx_sub_s(ONE, ARROW_FX), fx_mul_s(fx_mul_s(ARROW_FX, u), ARROW_OVER_FX));
    m4_tp3_s(
        v.xform,
        v3_add_s(
            v3_add_s(
                v3_scale_s(v.dir, fx_mul_s(v.size, m)),
                v3_scale_s(vector_x_axis_s(v), fx_mul_s(cs.1, aw)),
            ),
            v3_scale_s(vector_z_axis_s(v), fx_mul_s(cs.0, aw)),
        ),
    )
}

/// The first `n` spiral samples' screen positions, clipped ones skipped.
pub open spec fn spiral_prefix_s(v: Vector, cam: Perspective, vw: i64, vh: i64, n: int) -> Seq<
    ScreenPos,
>
    decreases n,
{
    if n <= 0 {
        Seq::empty()
    } else {
        spiral_prefix_s(v, cam, vw, vh, n - 1) + opt_seq(
            project_screen_s(cam, spiral_point_s(v, n - 1), vw, vh),
        )
    }
}

/// The shaft line, when both its endpoints project.
pub open spec fn vector_shaft_s(v: Vector, cam: Perspective, vw: i64, vh: i64) -> Seq<PrimView> {
    match (
        project_screen_s(cam, vector_pivot_s(v), vw, vh),
        project_screen_s(cam, vector_end_s(v), vw, vh),
    ) {
        (Some(a), Some(b)) => seq![
            PrimView::Line {
                a,
                b,
                stroke: Stroke { width: vector_stroke_w_s(v, cam), color: v.color },
            },
        ],
        _ => Seq::empty(),
    }
}

/// Everything the arrow draws: the shaft, then the spiral tip path.
pub open spec fn vector_render_s(v: Vector, cam: Perspective, vw: i64, vh: i64) -> Seq<PrimView> {
    vector_shaft_s(v, cam, vw, vh) + seq![
        PrimView::Path {
            points: spiral_prefix_s(v, cam, vw, vh, 600),
            stroke: Stroke { width: vector_stroke_w_s(v, cam), color: v.color },
        },
    ]
}

impl Vector {
    pub fn new(size: i64, dir: Vec3Fx, xform: Mat4Fx, color: Color) -> (r: Vector)
        ensures
            r == (Vector { size, dir, xform, color }),
    {
        Vector { size, dir, xform, color }
    }

    /// Draw the arrow: the shaft if unclipped, then the spiral tip with
    /// every clipped sample skipped.
    #[verifier::rlimit(60)]
    pub fn render(&self, cam: &Perspective, vw: i64, vh: i64) -> (r: Vec<ScreenPrim>)
        requires
            cam.wf(),
        ensures
            prims_view(r@) == vector_render_s(*self, *cam, vw, vh),
    {
        let mut prims: Vec<ScreenPrim> = Vec::new();
        proof {
            lemma_prims_view_empty();
        }
        let pivot: Vec3Fx = m4_tp3(&self.xform, v3_zero());
        let att: i64 = cam.attenuation(pivot);
        let width: i64 = fx_mul(SHAFT_STROKE_FX, fx_add(att, TENTH_FX));
        let end: Vec3Fx = m4_tp3(&self.xform, v3_scale(self.dir, self.size));
        let p1: Option<ScreenPos> = project_to_screen(cam, pivot, vw, vh);
        let p2: Option<ScreenPos> = project_to_screen(cam, end, vw, vh);
        match (p1, p2) {
            (Some(a), Some(b)) => {
                let prim: ScreenPrim = ScreenPrim::Line {
                    a,
                    b,
                    stroke: Stroke { width, color: self.color },
                };
                prims.push(prim);
                proof {
                    lemma_prims_view_push(Seq::empty(), prim);
                }
            },
            _ => {},
        }
        let x_axis: Vec3Fx = v3_norm(v3_cross(self.dir, v3(PI_FX, PI_FX, PI_FX)));
        let z_axis: Vec3Fx = v3_norm(v3_cross(x_axis, self.dir));
        let mut pts: Vec<ScreenPos> = Vec::new();
        let mut i: usize = 0;
        while i < 600
            invariant
                i <= 600,
                cam.wf(),
                x_axis == vector_x_axis_s(*self),
                z_axis == vector_z_axis_s(*self),
                pts@ == spiral_prefix_s(*self, *cam, vw, vh, i as int),
            decreases 600 - i,
        {
            let u: i64 = fx_div((i as i64) * 65536, SPIRAL_DIV_FX);
            let cu: i64 = fx_mul(u, SPIRAL_TURN_FX);
            let aw: i64 = fx_mul(ARROW_FX, fx_sub(ONE, u));
            let cs: (i64, i64) = sincos(cu);
            let m: i64 = fx_add(fx_sub(ONE, ARROW_FX), fx_mul(fx_mul(ARROW_FX, u), ARROW_OVER_FX));
            let base: Vec3Fx = m4_tp3(
                &self.xform,
                v3_add(
                    v3_add(
                        v3_scale(self.dir, fx_mul(self.size, m)),
                        v3_scale(x_axis, fx_mul(cs.1, aw)),
                    ),
                    v3_scale(z_axis, fx_mul(cs.0, aw)),
                ),
            );
            match project_to_screen(cam, base, vw, vh) {
                Some(p) => {
                    pts.push(p);
                },
                None => {},
            }
            i = i + 1;
        }
        let path: ScreenPrim = ScreenPrim::Path {
            points: pts,
            stroke: Stroke { width, color: self.color },
        };
        let ghost pre: Seq<ScreenPrim> = prims@;
        prims.push(path);
        proof {
            lemma_prims_view_push(pre, path);
        }
        prims
    }
}

} // verus!
