//! The wireframe cube: eight corners scaled per axis, twelve edges drawn
//! as line segments, edge width softened by facing and distance.

use vstd::prelude::*;
use crate::camera::Perspective;
use crate::fixed::{fx_add, fx_add_s, fx_mul, fx_mul_s, ONE};
use crate::mat4::{m4_tp3, m4_tp3_s, Mat4Fx};
use crate::screen::{
    fade_alpha, fade_alpha_s, label_view_s, lemma_prims_view_empty, lemma_prims_view_push, opt_seq,
    prims_view, project_to_screen, project_screen_s, push_label, Color, PrimView, ScreenPos,
    ScreenPrim, Stroke, HALF_FX, TENTH_FX,
};
use crate::vec3::{
    v3, v3_add, v3_add_s, v3_dot, v3_dot_s, v3_mul, v3_mul_s, v3_norm, v3_norm_s, v3_scale,
    v3_scale_s, v3_sub, v3_sub_s, v3_zero, v3_zero_s, Vec3Fx,
};

verus! {

#[derive(Clone, Debug)]
pub struct Cube {
    pub name: Option<String>,
    pub xform: Mat4Fx,
    pub size: Vec3Fx,
    pub line_width: i64,
    pub color: Color,
}

/// The fixed-point negative one half.
pub const NEG_HALF_FX: i64 = -32768;

/// The corners of the unit cube, in the fixed numbering the edges refer to.
pub open spec fn cube_vertex_s(i: int) -> Vec3Fx {
    if i == 0 {
        Vec3Fx { x: HALF_FX, y: NEG_HALF_FX, z: NEG_HALF_FX }
    } else if i == 1 {
        Vec3Fx { x: HALF_FX, y: NEG_HALF_FX, z: HALF_FX }
    } else if i == 2 {
        Vec3Fx { x: NEG_HALF_FX, y: NEG_HALF_FX, z: HALF_FX }
    } else if i == 3 {
        Vec3Fx { x: NEG_HALF_FX, y: NEG_HALF_FX, z: NEG_HALF_FX }
    } else if i == 4 {
        Vec3Fx { x: HALF_FX, y: HALF_FX, z: NEG_HALF_FX }
    } else if i == 5 {
        Vec3Fx { x: HALF_FX, y: HALF_FX, z: HALF_FX }
    } else if i == 6 {
        Vec3Fx { x: NEG_HALF_FX, y: HALF_FX, z: HALF_FX }
    } else {
        Vec3Fx { x: NEG_HALF_FX, y: HALF_FX, z: NEG_HALF_FX }
    }
}

/// The twelve edges: the bottom ring, the four uprights, the top ring.
pub open spec fn cube_edge_s(i: int) -> (int, int) {
    if i == 0 {
        (0int, 1int)
    } else if i == 1 {
        (1int, 2int)
    } else if i == 2 {
        (2int, 3int)
    } else if i == 3 {
        (3int, 0int)
    } else if i == 4 {
        (0int, 4int)
    } else if i == 5 {
        (1int, 5int)
    } else if i == 6 {
        (2int, 6int)
    } else if i == 7 {
        (3int, 7int)
    } else if i == 8 {
        (4int, 5int)
    } else if i == 9 {
        (5int, 6int)
    } else if i == 10 {
        (6int, 7int)
    } else {
        (7int, 4int)
    }
}

/// A corner in world space: the unit corner scaled per axis, then moved
/// by the cube's transform.
pub open spec fn cube_corner_world_s(c: Cube, i: int) -> Vec3Fx {
    m4_tp3_s(c.xform, v3_mul_s(cube_vertex_s(i), c.size))
}

/// The cube's pivot: its transform applied to the local origin.
pub open spec fn cube_pivot_s(c: Cube) -> Vec3Fx {
    m4_tp3_s(c.xform, v3_zero_s())
}

/// The faded stroke color shared by the edges and the label: the cube's
/// color at half opacity, attenuated by the pivot's distance.
pub open spec fn cube_color_s(c: Cube, cam: Perspective) -> Color {
    fade_alpha_s(c.color, fx_mul_s(HALF_FX, cam.att_s(cube_pivot_s(c))))
}

/// An edge's stroke width: the facing of the edge midpoint, softened,
/// scaled by the softened distance attenuation.
pub open spec fn cube_edge_width_s(c: Cube, cam: Perspective, w1: Vec3Fx, w2: Vec3Fx) -> i64 {
    let pivot: Vec3Fx = cube_pivot_s(c);
    let mid: Vec3Fx = v3_scale_s(v3_add_s(w1, w2), HALF_FX);
    let ln: Vec3Fx = v3_norm_s(v3_sub_s(mid, pivot));
    let facing: i64 = v3_dot_s(ln, v3_norm_s(v3_sub_s(cam.center_s(), pivot)));
    fx_mul_s(
        fx_add_s(fx_add_s(facing, ONE), TENTH_FX),
        fx_add_s(cam.att_s(pivot), TENTH_FX),
    )
}

/// One edge's primitive: a line when both endpoints project, nothing
/// when either is clipped.
pub open spec fn cube_edge_prim_s(c: Cube, cam: Perspective, vw: i64, vh: i64, i: int) -> Option<
    PrimView,
> {
    let e: (int, int) = cube_edge_s(i);
    let w1: Vec3Fx = cube_corner_world_s(c, e.0);
    let w2: Vec3Fx = cube_corner_world_s(c, e.1);
    match (project_screen_s(cam, w1, vw, vh), project_screen_s(cam, w2, vw, vh)) {
        (Some(p1), Some(p2)) => Some(
            PrimView::Line {
                a: p1,
                b: p2,
                stroke: Stroke {
                    width: cube_edge_width_s(c, cam, w1, w2),
                    color: cube_color_s(c, cam),
                },
            },
        ),
        _ => None,
    }
}

/// The first `n` edges' primitives, in edge order.
pub open spec fn cube_edges_prefix_s(c: Cube, cam: Perspective, vw: i64, vh: i64, n: int) -> Seq<
    PrimView,
>
    decreases n,
{
    if n <= 0 {
        Seq::empty()
    } else {
        cube_edges_prefix_s(c, cam, vw, vh, n - 1) + opt_seq(cube_edge_prim_s(c, cam, vw, vh, n - 1))
    }
}

/// Everything the cube draws: the surviving edges in order, then the
/// optional label at the projected pivot.
pub open spec fn cube_render_s(c: Cube, cam: Perspective, vw: i64, vh: i64) -> Seq<PrimView> {
    cube_edges_prefix_s(c, cam, vw, vh, 12) + label_view_s(
        c.name,
        project_screen_s(cam, cube_pivot_s(c), vw, vh),
        cube_color_s(c, cam),
    )
}

fn cube_vertex(i: usize) -> (r: Vec3Fx)
    requires
        i < 8,
    ensures
        r == cube_vertex_s(i as int),
{
    if i == 0 {
        v3(HALF_FX, NEG_HALF_FX, NEG_HALF_FX)
    } else if i == 1 {
        v3(HALF_FX, NEG_HALF_FX, HALF_FX)
    } else if i == 2 {
        v3(NEG_HALF_FX, NEG_HALF_FX, HALF_FX)
    } else if i == 3 {
        v3(NEG_HALF_FX, NEG_HALF_FX, NEG_HALF_FX)
    } else if i == 4 {
        v3(HALF_FX, HALF_FX, NEG_HALF_FX)
    } else if i == 5 {
        v3(HALF_FX, HALF_FX, HALF_FX)
    } else if i == 6 {
        v3(NEG_HALF_FX, HALF_FX, HALF_FX)
    } else {
        v3(NEG_HALF_FX, HALF_FX, NEG_HALF_FX)
    }
}

fn cube_edge(i: usize) -> (r: (usize, usize))
    requires
        i < 12,
    ensures
        r.0 < 8 && r.1 < 8,
        cube_edge_s(i as int) == (r.0 as int, r.1 as int),
{
    if i == 0 {
        (0, 1)
    } else if i == 1 {
        (1, 2)
    } else if i == 2 {
        (2, 3)
    } else if i == 3 {
        (3, 0)
    } else if i == 4 {
        (0, 4)
    } else if i == 5 {
        (1, 5)
    } else if i == 6 {
        (2, 6)
    } else if i == 7 {
        (3, 7)
    } else if i == 8 {
        (4, 5)
    } else if i == 9 {
        (5, 6)
    } else if i == 10 {
        (6, 7)
    } else {
        (7, 4)
    }
}

impl Cube {
    pub fn new(name: Option<String>, xform: Mat4Fx, size: Vec3Fx, line_width: i64, color: Color)
        -> (r: Cube)
        ensures
            r == (Cube { name, xform, size, line_width, color }),
    {
        Cube { name, xform, size, line_width, color }
    }

    /// Draw the cube: twelve edges, each skipped when an endpoint is
    /// clipped, then the optional label.
    pub fn render(&self, cam: &Perspective, vw: i64, vh: i64) -> (r: Vec<ScreenPrim>)
        requires
            cam.wf(),
        ensures
            prims_view(r@) == cube_render_s(*self, *cam, vw, vh),
    {
        let mut prims: Vec<ScreenPrim> = Vec::new();
        proof {
            lemma_prims_view_empty();
        }
        let pivot: Vec3Fx = m4_tp3(&self.xform, v3_zero());
        let att: i64 = cam.attenuation(pivot);
        let color: Color = fade_alpha(self.color, fx_mul(HALF_FX, att));
        let cam_pos: Vec3Fx = cam.get_center();
        let view_n: Vec3Fx = v3_norm(v3_sub(cam_pos, pivot));
        let wmul: i64 = fx_add(att, TENTH_FX);
        let mut i: usize = 0;
        while i < 12
            invariant
                i <= 12,
                cam.wf(),
                pivot == cube_pivot_s(*self),
                att == cam.att_s(pivot),
                color == cube_color_s(*self, *cam),
                cam_pos == cam.center_s(),
                view_n == v3_norm_s(v3_sub_s(cam.center_s(), pivot)),
                wmul == fx_add_s(cam.att_s(pivot), TENTH_FX),
                prims_view(prims@) == cube_edges_prefix_s(*self, *cam, vw, vh, i as int),
            decreases 12 - i,
        {
            let ghost pre: Seq<ScreenPrim> = prims@;
            let e: (usize, usize) = cube_edge(i);
            let w1: Vec3Fx = m4_tp3(&self.xform, v3_mul(cube_vertex(e.0), self.size));
            let w2: Vec3Fx = m4_tp3(&self.xform, v3_mul(cube_vertex(e.1), self.size));
            let p1: Option<ScreenPos> = project_to_screen(cam, w1, vw, vh);
            let p2: Option<ScreenPos> = project_to_screen(cam, w2, vw, vh);
            match (p1, p2) {
                (Some(a), Some(b)) => {
                    let mid: Vec3Fx = v3_scale(v3_add(w1, w2), HALF_FX);
                    let ln: Vec3Fx = v3_norm(v3_sub(mid, pivot));
                    let facing: i64 = v3_dot(ln, view_n);
                    let width: i64 = fx_mul(fx_add(fx_add(facing, ONE), TENTH_FX), wmul);
                    let prim: ScreenPrim = ScreenPrim::Line {
                        a,
                        b,
                        stroke: Stroke { width, color },
                    };
                    prims.push(prim);
                    proof {
                        lemma_prims_view_push(pre, prim);
                    }
                },
                _ => {},
            }
            i = i + 1;
        }
        let ppos: Option<ScreenPos> = project_to_screen(cam, pivot, vw, vh);
        push_label(&mut prims, &self.name, ppos, color);
        prims
    }
}

} // verus!
