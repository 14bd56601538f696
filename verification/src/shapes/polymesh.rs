//! The polygon soup: a point pool, a flat vertex-index buffer, and a
//! per-face vertex count. Each face whose vertices all project is drawn
//! as an open path whose opacity comes from the face's facing toward
//! the camera; faces facing away fade to fully transparent, with no
//! culling, and a face with any clipped vertex is skipped for the frame.

use vstd::prelude::*;
use crate::camera::Perspective;
use crate::fixed::{fx_div, fx_div_s, fx_mul, fx_mul_s, fx_neg, fx_neg_s};
use crate::mat4::{m4_tp3, m4_tp3_s, Mat4Fx};
use crate::screen::{
    alpha_u8, alpha_u8_s, fade_alpha, fade_alpha_s, label_view_s, lemma_prims_view_empty,
    lemma_prims_view_push, opt_seq, prims_view, project_to_screen, project_screen_s, push_label,
    Color, PrimView, ScreenPos, ScreenPrim, Stroke, HALF_FX,
};
use crate::vec3::{
    lemma_cross_self, v3_add, v3_add_s, v3_cross, v3_cross_s, v3_dot, v3_dot_s, v3_norm, v3_norm_s,
    v3_sub, v3_sub_s, v3_zero, v3_zero_s, Vec3Fx,
};

verus! {

/// Three, in fixed point: the centroid divisor.
pub const THREE_FX: i64 = 196608;

#[derive(Clone, Debug)]
pub struct Polymesh {
    pub name: Option<String>,
    pub xform: Mat4Fx,
    pub line_width: i64,
    pub color: Color,
    pub points: Vec<Vec3Fx>,
    pub indices: Vec<usize>,
    pub counts: Vec<usize>,
}

/// The sum of the first `i` face counts: where face `i` starts in the
/// flat index buffer.
pub open spec fn psum_s(counts: Seq<usize>, i: int) -> int
    decreases i,
{
    if i <= 0 {
        0
    } else {
        psum_s(counts, i - 1) + counts[i - 1]
    }
}

/// Prefix sums of the counts grow monotonically.
pub proof fn lemma_psum_mono(counts: Seq<usize>, i: int, j: int)
    requires
        0 <= i <= j,
    ensures
        psum_s(counts, i) <= psum_s(counts, j),
    decreases j,
{
    if i < j {
        lemma_psum_mono(counts, i, j - 1);
    }
}

/// The mesh invariant: the counts tile the index buffer exactly, every
/// index lands in the point pool, and every face has at least the three
/// vertices its normal is computed from.
pub open spec fn mesh_wf_s(m: Polymesh) -> bool {
    &&& psum_s(m.counts@, m.counts@.len() as int) == m.indices@.len()
    &&& forall|i: int| 0 <= i < m.indices@.len() ==> m.indices@[i] < m.points@.len()
    &&& forall|f: int| 0 <= f < m.counts@.len() ==> m.counts@[f] >= 3
}

pub open spec fn mesh_pivot_s(m: Polymesh) -> Vec3Fx {
    m4_tp3_s(m.xform, v3_zero_s())
}

/// The base color of the mesh's strokes and label: the mesh color at
/// half opacity, attenuated by the pivot's distance.
pub open spec fn mesh_color_s(m: Polymesh, cam: Perspective) -> Color {
    fade_alpha_s(m.color, fx_mul_s(HALF_FX, cam.att_s(mesh_pivot_s(m))))
}

/// The local point of vertex `k` of face `f`.
pub open spec fn face_point_s(m: Polymesh, f: int, k: int) -> Vec3Fx {
    m.points@[m.indices@[psum_s(m.counts@, f) + k] as int]
}

/// Zero when negative: the facing clamp of the opacity.
pub open spec fn max0_s(a: i64) -> i64 {
    if a < 0 {
        0
    } else {
        a
    }
}

/// A face's opacity from its normal and the view direction: the negated
/// dot product, clamped at zero, as an alpha byte. A zero-length normal
/// gives zero: such a face renders fully transparent.
pub open spec fn face_alpha_s(n: Vec3Fx, v: Vec3Fx) -> u8 {
    alpha_u8_s(max0_s(fx_neg_s(v3_dot_s(n, v))))
}

/// The face normal, from the face's last three vertices: the cross
/// product of the two guarded-normalized edge directions.
pub open spec fn face_normal_s(m: Polymesh, f: int) -> Vec3Fx {
    let c: int = m.counts@[f] as int;
    let cp: Vec3Fx = face_point_s(m, f, c - 1);
    let bp: Vec3Fx = face_point_s(m, f, c - 2);
    let ap: Vec3Fx = face_point_s(m, f, c - 3);
    v3_cross_s(v3_norm_s(v3_sub_s(ap, bp)), v3_norm_s(v3_sub_s(cp, bp)))
}

/// The guarded-normalized direction from the camera to the face's
/// three-vertex centroid.
pub open spec fn face_view_s(m: Polymesh, cam: Perspective, f: int) -> Vec3Fx {
    let c: int = m.counts@[f] as int;
    let cp: Vec3Fx = face_point_s(m, f, c - 1);
    let bp: Vec3Fx = face_point_s(m, f, c - 2);
    let ap: Vec3Fx = face_point_s(m, f, c - 3);
    let sum: Vec3Fx = v3_add_s(v3_add_s(cp, ap), bp);
    let centroid: Vec3Fx = Vec3Fx {
        x: fx_div_s(sum.x, THREE_FX),
        y: fx_div_s(sum.y, THREE_FX),
        z: fx_div_s(sum.z, THREE_FX),
    };
    v3_norm_s(v3_sub_s(centroid, cam.center_s()))
}

/// The first `k` screen positions of face `f`, clipped vertices skipped.
pub open spec fn face_pts_prefix_s(m: Polymesh, cam: Perspective, vw: i64, vh: i64, f: int,
    k: int) -> Seq<ScreenPos>
    decreases k,
{
    if k <= 0 {
        Seq::empty()
    } else {
        face_pts_prefix_s(m, cam, vw, vh, f, k - 1) + opt_seq(
            project_screen_s(cam, m4_tp3_s(m.xform, face_point_s(m, f, k - 1)), vw, vh),
        )
    }
}

/// Whether none of the first `k` vertices of face `f` is clipped.
pub open spec fn face_vis_prefix_s(m: Polymesh, cam: Perspective, vw: i64, vh: i64, f: int,
    k: int) -> bool
    decreases k,
{
    if k <= 0 {
        true
    } else {
        face_vis_prefix_s(m, cam, vw, vh, f, k - 1) && project_screen_s(
            cam,
            m4_tp3_s(m.xform, face_point_s(m, f, k - 1)),
            vw,
            vh,
        ).is_some()
    }
}

/// A visible prefix collects one screen position per vertex: the path of
/// a fully visible face holds exactly the face's vertex count.
pub proof fn lemma_visible_face_full_path(m: Polymesh, cam: Perspective, vw: i64, vh: i64, f: int,
    k: int)
    requires
        k >= 0,
        face_vis_prefix_s(m, cam, vw, vh, f, k),
    ensures
        face_pts_prefix_s(m, cam, vw, vh, f, k).len() == k,
    decreases k,
{
    if k > 0 {
        lemma_visible_face_full_path(m, cam, vw, vh, f, k - 1);
    }
}

/// One face's primitive: its open path in the face-alpha stroke, present
/// only when every vertex of the face projects. A face with any clipped
/// vertex is discarded whole for the frame.
pub open spec fn face_prim_s(m: Polymesh, cam: Perspective, vw: i64, vh: i64, f: int) -> Option<
    PrimView,
> {
    let base: Color = mesh_color_s(m, cam);
    if face_vis_prefix_s(m, cam, vw, vh, f, m.counts@[f] as int) {
        Some(
            PrimView::Path {
                points: face_pts_prefix_s(m, cam, vw, vh, f, m.counts@[f] as int),
                stroke: Stroke {
                    width: m.line_width,
                    color: Color {
                        r: base.r,
                        g: base.g,
                        b: base.b,
                        a: face_alpha_s(face_normal_s(m, f), face_view_s(m, cam, f)),
                    },
                },
            },
        )
    } else {
        None
    }
}

/// The paths of the fully visible faces among the first `n`, in face order.
pub open spec fn mesh_faces_prefix_s(m: Polymesh, cam: Perspective, vw: i64, vh: i64, n: int)
    -> Seq<PrimView>
    decreases n,
{
    if n <= 0 {
        Seq::empty()
    } else {
        mesh_faces_prefix_s(m, cam, vw, vh, n - 1) + opt_seq(face_prim_s(m, cam, vw, vh, n - 1))
    }
}

/// Everything the mesh draws: one path per fully visible face, then the
/// optional label.
pub open spec fn mesh_render_s(m: Polymesh, cam: Perspective, vw: i64, vh: i64) -> Seq<PrimView> {
    mesh_faces_prefix_s(m, cam, vw, vh, m.counts@.len() as int) + label_view_s(
        m.name,
        project_screen_s(cam, mesh_pivot_s(m), vw, vh),
        mesh_color_s(m, cam),
    )
}

/// A face whose two defining edge directions normalize to the same
/// vector — three colinear defining vertices — has a zero-length cross
/// product for its normal, and renders fully transparent.
pub proof fn lemma_colinear_face_transparent(d: Vec3Fx, v: Vec3Fx)
    ensures
        face_alpha_s(v3_cross_s(d, d), v) == 0,
{
    lemma_cross_self(d);
    crate::fixed::lemma_fx_mul_zero(v.x);
    crate::fixed::lemma_fx_mul_zero(v.y);
    crate::fixed::lemma_fx_mul_zero(v.z);
}

/// A face whose two defining edge directions normalize to exact
/// negations of each other — the middle defining vertex the exact
/// midpoint of the outer two — likewise has a zero-length normal and
/// renders fully transparent.
pub proof fn lemma_colinear_face_transparent_opposite(d: Vec3Fx, v: Vec3Fx)
    requires
        d.x != i64::MIN,
        d.y != i64::MIN,
        d.z != i64::MIN,
    ensures
        face_alpha_s(v3_cross_s(d, crate::vec3::v3_scale_s(d, -65536i64)), v) == 0,
{
    crate::vec3::lemma_cross_neg(d);
    crate::fixed::lemma_fx_mul_zero(v.x);
    crate::fixed::lemma_fx_mul_zero(v.y);
    crate::fixed::lemma_fx_mul_zero(v.z);
}

impl Polymesh {
    pub fn new(name: Option<String>, xform: Mat4Fx, line_width: i64, color: Color,
        points: Vec<Vec3Fx>, indices: Vec<usize>, counts: Vec<usize>) -> (r: Polymesh)
        ensures
            r == (Polymesh { name, xform, line_width, color, points, indices, counts }),
    {
        Polymesh { name, xform, line_width, color, points, indices, counts }
    }

    /// Draw the mesh: one path with facing-based opacity per face whose
    /// vertices all project — a face with any clipped vertex is skipped
    /// whole — then the optional label.
    #[verifier::rlimit(100)]
    pub fn render(&self, cam: &Perspective, vw: i64, vh: i64) -> (r: Vec<ScreenPrim>)
        requires
            cam.wf(),
            mesh_wf_s(*self),
        ensures
            prims_view(r@) == mesh_render_s(*self, *cam, vw, vh),
    {
        let mut prims: Vec<ScreenPrim> = Vec::new();
        proof {
            lemma_prims_view_empty();
        }
        let pivot: Vec3Fx = m4_tp3(&self.xform, v3_zero());
        let att: i64 = cam.attenuation(pivot);
        let base: Color = fade_alpha(self.color, fx_mul(HALF_FX, att));
        let cam_pos: Vec3Fx = cam.get_center();
        let nfaces: usize = self.counts.len();
        let total: usize = self.indices.len();
        let mut current: usize = 0;
        let mut f: usize = 0;
        while f < nfaces
            invariant
                f <= nfaces,
                nfaces == self.counts@.len(),
                total == self.indices@.len(),
                cam.wf(),
                mesh_wf_s(*self),
                base == mesh_color_s(*self, *cam),
                cam_pos == cam.center_s(),
                current == psum_s(self.counts@, f as int),
                prims_view(prims@) == mesh_faces_prefix_s(*self, *cam, vw, vh, f as int),
            decreases nfaces - f,
        {
            proof {
                lemma_psum_mono(self.counts@, f as int + 1, nfaces as int);
            }
            let c: usize = self.counts[f];
            proof {
                assert(c >= 3);
                assert(psum_s(self.counts@, f as int + 1) == current + c);
            }
            let mut pts: Vec<ScreenPos> = Vec::new();
            let mut visible: bool = true;
            let mut k: usize = 0;
            while k < c
                invariant
                    k <= c,
                    cam.wf(),
                    mesh_wf_s(*self),
                    f < nfaces,
                    nfaces == self.counts@.len(),
                    c == self.counts@[f as int],
                    total == self.indices@.len(),
                    current == psum_s(self.counts@, f as int),
                    current + c <= total,
                    pts@ == face_pts_prefix_s(*self, *cam, vw, vh, f as int, k as int),
                    visible == face_vis_prefix_s(*self, *cam, vw, vh, f as int, k as int),
                decreases c - k,
            {
                let idx: usize = self.indices[current + k];
                let world: Vec3Fx = m4_tp3(&self.xform, self.points[idx]);
                match project_to_screen(cam, world, vw, vh) {
                    Some(p) => {
                        pts.push(p);
                    },
                    None => {
                        visible = false;
                    },
                }
                k = k + 1;
            }
            if visible {
                let cp: Vec3Fx = self.points[self.indices[current + c - 1]];
                let bp: Vec3Fx = self.points[self.indices[current + c - 2]];
                let ap: Vec3Fx = self.points[self.indices[current + c - 3]];
                let dbc: Vec3Fx = v3_norm(v3_sub(cp, bp));
                let dba: Vec3Fx = v3_norm(v3_sub(ap, bp));
                let n: Vec3Fx = v3_cross(dba, dbc);
                let sum: Vec3Fx = v3_add(v3_add(cp, ap), bp);
                let centroid: Vec3Fx = Vec3Fx {
                    x: fx_div(sum.x, THREE_FX),
                    y: fx_div(sum.y, THREE_FX),
                    z: fx_div(sum.z, THREE_FX),
                };
                let view: Vec3Fx = v3_norm(v3_sub(centroid, cam_pos));
                let ndv: i64 = fx_neg(v3_dot(n, view));
                let clamped: i64 = if ndv < 0 {
                    0
                } else {
                    ndv
                };
                let prim: ScreenPrim = ScreenPrim::Path {
                    points: pts,
                    stroke: Stroke {
                        width: self.line_width,
                        color: Color { r: base.r, g: base.g, b: base.b, a: alpha_u8(clamped) },
                    },
                };
                let ghost pre: Seq<ScreenPrim> = prims@;
                prims.push(prim);
                proof {
                    lemma_prims_view_push(pre, prim);
                }
            } else {
                proof {
                    assert(prims_view(prims@) =~= mesh_faces_prefix_s(
                        *self,
                        *cam,
                        vw,
                        vh,
                        f as int + 1,
                    ));
                }
            }
            current = current + c;
            f = f + 1;
        }
        let ppos: Option<ScreenPos> = project_to_screen(cam, pivot, vw, vh);
        push_label(&mut prims, &self.name, ppos, base);
        prims
    }
}

} // verus!
