//! The point cloud: each point drawn as a filled screen circle. The
//! circle radius is computed once, from the cloud's declared world-space
//! size projected at the pivot's own depth, and reused for every point —
//! a known limitation: points materially nearer or farther than the
//! pivot get a circle sized for the pivot's depth.

use vstd::prelude::*;
use crate::camera::Perspective;
use crate::fixed::{fx_mul, fx_mul_s};
use crate::mat4::{m4_tp3, m4_tp3_s, Mat4Fx};
use crate::screen::{
    fade_alpha, fade_alpha_s, label_view_s, lemma_prims_view_empty, lemma_prims_view_push, opt_seq,
    prims_view, project_to_screen, project_screen_s, push_label, screen_dist, screen_dist_s, Color,
    PrimView, ScreenPos, ScreenPrim, Stroke, HALF_FX,
};
use crate::vec3::{v3_add, v3_add_s, v3_scale, v3_scale_s, v3_zero, v3_zero_s, Vec3Fx};

verus! {

#[derive(Clone, Debug)]
pub struct PointCloud {
    pub name: Option<String>,
    pub xform: Mat4Fx,
    pub size: i64,
    pub color: Color,
    pub points: Vec<Vec3Fx>,
}

pub open spec fn cloud_pivot_s(c: PointCloud) -> Vec3Fx {
    m4_tp3_s(c.xform, v3_zero_s())
}

/// The world point one size away from the pivot along the camera's local
/// X axis: its projection fixes the shared circle radius.
pub open spec fn cloud_radius_point_s(c: PointCloud, cam: Perspective) -> Vec3Fx {
    v3_add_s(cloud_pivot_s(c), v3_scale_s(crate::mat4::v4_xyz_s(cam.xform.x_axis), c.size))
}

/// The fill color: the cloud's color at half opacity, attenuated by the
/// pivot's distance.
pub open spec fn cloud_color_s(c: PointCloud, cam: Perspective) -> Color {
    fade_alpha_s(c.color, fx_mul_s(HALF_FX, cam.att_s(cloud_pivot_s(c))))
}

/// One point's circle, if the point projects.
pub open spec fn cloud_point_prim_s(c: PointCloud, cam: Perspective, vw: i64, vh: i64, cs: i64,
    i: int) -> Option<PrimView> {
    match project_screen_s(cam, m4_tp3_s(c.xform, c.points@[i]), vw, vh) {
        Some(p) => Some(
            PrimView::Circle {
                center: p,
                radius: cs,
                fill: cloud_color_s(c, cam),
                stroke: Stroke { width: 0, color: Color { r: 0, g: 0, b: 0, a: 0 } },
            },
        ),
        None => None,
    }
}

/// The first `n` points' circles, in list order.
pub open spec fn cloud_prefix_s(c: PointCloud, cam: Perspective, vw: i64, vh: i64, cs: i64,
    n: int) -> Seq<PrimView>
    decreases n,
{
    if n <= 0 {
        Seq::empty()
    } else {
        cloud_prefix_s(c, cam, vw, vh, cs, n - 1) + opt_seq(
            cloud_point_prim_s(c, cam, vw, vh, cs, n - 1),
        )
    }
}

/// Everything the cloud draws once its pivot and radius point project:
/// one circle per unclipped point, then the optional label.
pub open spec fn cloud_render_s(c: PointCloud, cam: Perspective, vw: i64, vh: i64) -> Seq<
    PrimView,
> {
    match (
        project_screen_s(cam, cloud_pivot_s(c), vw, vh),
        project_screen_s(cam, cloud_radius_point_s(c, cam), vw, vh),
    ) {
        (Some(ps), Some(rs)) => {
            let cs: i64 = screen_dist_s(ps, rs);
            cloud_prefix_s(c, cam, vw, vh, cs, c.points@.len() as int) + label_view_s(
                c.name,
                Some(ps),
                cloud_color_s(c, cam),
            )
        },
        _ => Seq::empty(),
    }
}

impl PointCloud {
    pub fn new(name: Option<String>, xform: Mat4Fx, size: i64, color: Color, points: Vec<Vec3Fx>)
        -> (r: PointCloud)
        ensures
            r == (PointCloud { name, xform, size, color, points }),
    {
        PointCloud { name, xform, size, color, points }
    }

    /// Draw the cloud; a clipped pivot or radius point skips it whole,
    /// since the shared circle radius is then undefined.
    #[verifier::rlimit(60)]
    pub fn render(&self, cam: &Perspective, vw: i64, vh: i64) -> (r: Vec<ScreenPrim>)
        requires
            cam.wf(),
        ensures
            prims_view(r@) == cloud_render_s(*self, *cam, vw, vh),
    {
        let mut prims: Vec<ScreenPrim> = Vec::new();
        proof {
            lemma_prims_view_empty();
        }
        let pivot: Vec3Fx = m4_tp3(&self.xform, v3_zero());
        let radius_p: Vec3Fx = v3_add(
            pivot,
            v3_scale(crate::mat4::v4_xyz(cam.get_xform().x_axis), self.size),
        );
        let p1: Option<ScreenPos> = project_to_screen(cam, pivot, vw, vh);
        let p2: Option<ScreenPos> = project_to_screen(cam, radius_p, vw, vh);
        match (p1, p2) {
            (Some(ps), Some(rs)) => {
                let cs: i64 = screen_dist(ps, rs);
                let att: i64 = cam.attenuation(pivot);
                let color: Color = fade_alpha(self.color, fx_mul(HALF_FX, att));
                let n: usize = self.points.len();
                let mut i: usize = 0;
                while i < n
                    invariant
                        i <= n,
                        n == self.points@.len(),
                        cam.wf(),
                        color == cloud_color_s(*self, *cam),
                        prims_view(prims@) == cloud_prefix_s(*self, *cam, vw, vh, cs, i as int),
                    decreases n - i,
                {
                    let ghost pre: Seq<ScreenPrim> = prims@;
                    let world: Vec3Fx = m4_tp3(&self.xform, self.points[i]);
                    match project_to_screen(cam, world, vw, vh) {
                        Some(p) => {
                            let prim: ScreenPrim = ScreenPrim::Circle {
                                center: p,
                                radius: cs,
                                fill: color,
                                stroke: Stroke { width: 0, color: Color { r: 0, g: 0, b: 0, a: 0 } },
                            };
                            prims.push(prim);
                            proof {
                                lemma_prims_view_push(pre, prim);
                            }
                        },
                        None => {},
                    }
                    i = i + 1;
                }
                push_label(&mut prims, &self.name, Some(ps), color);
            },
            _ => {},
        }
        prims
    }
}

} // verus!
