//! The floor grid: a fixed 20-by-20 two-direction line lattice at unit
//! spacing in the shape's local XZ plane, faded by each line's distance
//! from the grid's own center.

use vstd::prelude::*;
use crate::camera::Perspective;
use crate::fixed::{fx_div, fx_div_s, fx_sub, fx_sub_s, ONE};
use crate::mat4::{m4_identity, m4_identity_s, m4_rot_y, m4_rot_y_s, m4_tp3, m4_tp3_s, Mat4Fx};
use crate::screen::{
    alpha_u8, alpha_u8_s, lemma_prims_view_empty, lemma_prims_view_push, opt_seq, prims_view,
    project_to_screen, project_screen_s, Color, PrimView, ScreenPos, ScreenPrim, Stroke, HALF_FX,
};
use crate::vec3::{v3, v3_add, v3_add_s, v3_len, v3_len_s, Vec3Fx};

verus! {

/// The fixed-point negative one half.
pub const NEG_HALF_GRID_FX: i64 = -32768;

/// Half the lattice extent, 9.5 in fixed point: the offset that centers
/// the 20 lines of unit spacing on the grid's origin.
pub const GRID_CENTER_FX: i64 = 622592;

/// The lattice radius the fade is normalized by: 10 in fixed point.
pub const GRID_RADIUS_FX: i64 = 655360;

/// The grid stroke width: 2 in fixed point.
pub const GRID_STROKE_FX: i64 = 131072;

#[derive(Clone, Copy, PartialEq, Eq, Structural, Debug)]
pub struct Grid {
    pub size: i64,
    pub xform: Mat4Fx,
    pub width: i64,
}

/// The lattice offset of line `(xi, yi)`: unit spacing, centered.
pub open spec fn grid_offset_s(xi: int, yi: int) -> Vec3Fx {
    Vec3Fx {
        x: (yi * 65536 - GRID_CENTER_FX) as i64,
        y: 0,
        z: (xi * 65536 - GRID_CENTER_FX) as i64,
    }
}

/// The rotation of a lattice pass: the second pass turns the lines by a
/// quarter turn about Y, whose sine and cosine are exact in fixed point.
pub open spec fn grid_rot_s(d: int) -> Mat4Fx {
    if d == 0 {
        m4_identity_s()
    } else {
        m4_rot_y_s(0, ONE)
    }
}

/// The fade alpha of a lattice line: one minus the offset's distance
/// from the grid center over the lattice radius, as a byte.
pub open spec fn grid_alpha_s(off: Vec3Fx) -> u8 {
    alpha_u8_s(fx_sub_s(ONE, fx_div_s(v3_len_s(off), GRID_RADIUS_FX)))
}

/// One lattice line's primitive, if both endpoints project.
pub open spec fn grid_line_prim_s(g: Grid, cam: Perspective, vw: i64, vh: i64, idx: int) -> Option<
    PrimView,
> {
    let d: int = idx / 400;
    let rem: int = idx % 400;
    let xi: int = rem / 20;
    let yi: int = rem % 20;
    let rot: Mat4Fx = grid_rot_s(d);
    let off: Vec3Fx = grid_offset_s(xi, yi);
    let l1: Vec3Fx = v3_add_s(Vec3Fx { x: HALF_FX, y: 0, z: 0 }, off);
    let l2: Vec3Fx = v3_add_s(Vec3Fx { x: NEG_HALF_GRID_FX, y: 0, z: 0 }, off);
    let w1: Vec3Fx = m4_tp3_s(g.xform, m4_tp3_s(rot, l1));
    let w2: Vec3Fx = m4_tp3_s(g.xform, m4_tp3_s(rot, l2));
    match (project_screen_s(cam, w1, vw, vh), project_screen_s(cam, w2, vw, vh)) {
        (Some(p1), Some(p2)) => Some(
            PrimView::Line {
                a: p1,
                b: p2,
                stroke: Stroke {
                    width: GRID_STROKE_FX,
                    color: Color { r: 40, g: 40, b: 40, a: grid_alpha_s(off) },
                },
            },
        ),
        _ => None,
    }
}

/// The first `n` lattice lines' primitives, in pass/row/column order.
pub open spec fn grid_prefix_s(g: Grid, cam: Perspective, vw: i64, vh: i64, n: int) -> Seq<
    PrimView,
>
    decreases n,
{
    if n <= 0 {
        Seq::empty()
    } else {
        grid_prefix_s(g, cam, vw, vh, n - 1) + opt_seq(grid_line_prim_s(g, cam, vw, vh, n - 1))
    }
}

/// Everything the grid draws: both lattice passes, 800 candidate lines.
pub open spec fn grid_render_s(g: Grid, cam: Perspective, vw: i64, vh: i64) -> Seq<PrimView> {
    grid_prefix_s(g, cam, vw, vh, 800)
}

impl Grid {
    pub fn new(size: i64, xform: Mat4Fx, width: i64) -> (r: Grid)
        ensures
            r == (Grid { size, xform, width }),
    {
        Grid { size, xform, width }
    }

    /// Draw the lattice: each line skipped when an endpoint is clipped.
    #[verifier::rlimit(60)]
    pub fn render(&self, cam: &Perspective, vw: i64, vh: i64) -> (r: Vec<ScreenPrim>)
        requires
            cam.wf(),
        ensures
            prims_view(r@) == grid_render_s(*self, *cam, vw, vh),
    {
        let mut prims: Vec<ScreenPrim> = Vec::new();
        proof {
            lemma_prims_view_empty();
        }
        let ident: Mat4Fx = m4_identity();
        let quarter: Mat4Fx = m4_rot_y(0, ONE);
        let mut idx: usize = 0;
        while idx < 800
            invariant
                idx <= 800,
                cam.wf(),
                ident == m4_identity_s(),
                quarter == m4_rot_y_s(0, ONE),
                prims_view(prims@) == grid_prefix_s(*self, *cam, vw, vh, idx as int),
            decreases 800 - idx,
        {
            let ghost pre: Seq<ScreenPrim> = prims@;
            let d: usize = idx / 400;
            let rem: usize = idx % 400;
            let xi: usize = rem / 20;
            let yi: usize = rem % 20;
            let rot: Mat4Fx = if d == 0 {
                ident
            } else {
                quarter
            };
            let off: Vec3Fx = v3(
                (yi as i64) * 65536 - GRID_CENTER_FX,
                0,
                (xi as i64) * 65536 - GRID_CENTER_FX,
            );
            let l1: Vec3Fx = v3_add(v3(HALF_FX, 0, 0), off);
            let l2: Vec3Fx = v3_add(v3(NEG_HALF_GRID_FX, 0, 0), off);
            let w1: Vec3Fx = m4_tp3(&self.xform, m4_tp3(&rot, l1));
            let w2: Vec3Fx = m4_tp3(&self.xform, m4_tp3(&rot, l2));
            let p1: Option<ScreenPos> = project_to_screen(cam, w1, vw, vh);
            let p2: Option<ScreenPos> = project_to_screen(cam, w2, vw, vh);
            match (p1, p2) {
                (Some(a), Some(b)) => {
                    let alpha: u8 = alpha_u8(fx_sub(ONE, fx_div(v3_len(off), GRID_RADIUS_FX)));
                    let prim: ScreenPrim = ScreenPrim::Line {
                        a,
                        b,
                        stroke: Stroke {
                            width: GRID_STROKE_FX,
                            color: Color { r: 40, g: 40, b: 40, a: alpha },
                        },
                    };
                    prims.push(prim);
                    proof {
                        lemma_prims_view_push(pre, prim);
                    }
                },
                _ => {},
            }
            idx = idx + 1;
        }
        prims
    }
}

} // verus!
