//! The point-light glyph: a filled circle sized from the light's radius
//! at the pivot's depth, and seventeen equally-angled radiating rays.

use vstd::prelude::*;
use crate::camera::Perspective;
use crate::fixed::{fx_add, fx_add_s, fx_div, fx_div_s, fx_mul, fx_mul_s};
use crate::mat4::{m4_tp3, m4_tp3_s, Mat4Fx};
use crate::screen::{
    fade_alpha, fade_alpha_s, label_view_s, lemma_prims_view_empty, lemma_prims_view_push,
    prims_view, project_to_screen, project_screen_s, push_label, screen_dist, screen_dist_s, Color,
    PrimView, ScreenPos, ScreenPrim, Stroke, TENTH_FX,
};
use crate::trig::{sincos, sincos_s, TWO_PI_FX};
use crate::vec3::{v3_add, v3_add_s, v3_scale, v3_scale_s, v3_zero, v3_zero_s, Vec3Fx};

verus! {

/// The ray's inner radius factor: 1.1 in fixed point.
pub const RAY_IN_FX: i64 = 72090;

/// The ray's outer radius factor: 1.5 in fixed point.
pub const RAY_OUT_FX: i64 = 98304;

/// The fill opacity base: 0.7 in fixed point.
pub const LIGHT_FILL_FX: i64 = 45875;

/// The glyph stroke base width: 2 in fixed point.
pub const LIGHT_STROKE_FX: i64 = 131072;

/// The ray count as a fixed-point divisor: 17.
pub const RAY_DIV_FX: i64 = 1114112;

#[derive(Clone, Debug)]
pub struct PointLight {
    pub name: Option<String>,
    pub xform: Mat4Fx,
    pub size: i64,
    pub color: Color,
}

pub open spec fn light_pivot_s(l: PointLight) -> Vec3Fx {
    m4_tp3_s(l.xform, v3_zero_s())
}

/// The world point one radius away from the pivot along the camera's
/// local X axis: its projection fixes the glyph's screen size.
pub open spec fn light_radius_point_s(l: PointLight, cam: Perspective) -> Vec3Fx {
    v3_add_s(
        light_pivot_s(l),
        v3_scale_s(crate::mat4::v4_xyz_s(cam.xform.x_axis), l.size),
    )
}

/// The glyph's stroke: the base width scaled by softened attenuation,
/// in a fixed warm stroke color.
pub open spec fn light_stroke_s(l: PointLight, cam: Perspective) -> Stroke {
    Stroke {
        width: fx_mul_s(LIGHT_STROKE_FX, fx_add_s(cam.att_s(light_pivot_s(l)), TENTH_FX)),
        color: Color { r: 255, g: 255, b: 160, a: 255 },
    }
}

/// One ray's line: a segment from 1.1 to 1.5 glyph radii, at one of the
/// seventeen equal angles.
pub open spec fn light_ray_s(l: PointLight, cam: Perspective, ps: ScreenPos, cs: i64, r: int)
    -> PrimView {
    let u: i64 = fx_mul_s(fx_div_s((r * 65536) as i64, RAY_DIV_FX), TWO_PI_FX);
    let sc: (i64, i64) = sincos_s(u);
    let inr: i64 = fx_mul_s(cs, RAY_IN_FX);
    let outr: i64 = fx_mul_s(cs, RAY_OUT_FX);
    PrimView::Line {
        a: ScreenPos {
            x: fx_add_s(ps.x, fx_mul_s(sc.1, inr)),
            y: fx_add_s(ps.y, fx_mul_s(sc.0, inr)),
        },
        b: ScreenPos {
            x: fx_add_s(ps.x, fx_mul_s(sc.1, outr)),
            y: fx_add_s(ps.y, fx_mul_s(sc.0, outr)),
        },
        stroke: light_stroke_s(l, cam),
    }
}

/// The first `n` rays, in angle order.
pub open spec fn light_rays_prefix_s(l: PointLight, cam: Perspective, ps: ScreenPos, cs: i64,
    n: int) -> Seq<PrimView>
    decreases n,
{
    if n <= 0 {
        Seq::empty()
    } else {
        light_rays_prefix_s(l, cam, ps, cs, n - 1) + seq![light_ray_s(l, cam, ps, cs, n - 1)]
    }
}

/// Everything the glyph draws once its pivot and radius point project:
/// the filled circle, the rays, then the optional label in the faded
/// fill color.
pub open spec fn light_render_s(l: PointLight, cam: Perspective, vw: i64, vh: i64) -> Seq<
    PrimView,
> {
    match (
        project_screen_s(cam, light_pivot_s(l), vw, vh),
        project_screen_s(cam, light_radius_point_s(l, cam), vw, vh),
    ) {
        (Some(ps), Some(rs)) => {
            let cs: i64 = screen_dist_s(ps, rs);
            let fill_f: i64 = fx_mul_s(LIGHT_FILL_FX, cam.att_s(light_pivot_s(l)));
            seq![
                PrimView::Circle {
                    center: ps,
                    radius: cs,
                    fill: Color { r: 255, g: 255, b: 0, a: crate::screen::alpha_u8_s(fill_f) },
                    stroke: light_stroke_s(l, cam),
                },
            ] + light_rays_prefix_s(l, cam, ps, cs, 17) + label_view_s(
                l.name,
                Some(ps),
                fade_alpha_s(l.color, fill_f),
            )
        },
        _ => Seq::empty(),
    }
}

impl PointLight {
    pub fn new(name: Option<String>, xform: Mat4Fx, size: i64, color: Color) -> (r: PointLight)
        ensures
            r == (PointLight { name, xform, size, color }),
    {
        PointLight { name, xform, size, color }
    }

    /// Draw the glyph; a clipped pivot or radius point skips it whole,
    /// since its screen size is then undefined.
    #[verifier::rlimit(60)]
    pub fn render(&self, cam: &Perspective, vw: i64, vh: i64) -> (r: Vec<ScreenPrim>)
        requires
            cam.wf(),
        ensures
            prims_view(r@) == light_render_s(*self, *cam, vw, vh),
    {
        let mut prims: Vec<ScreenPrim> = Vec::new();
        proof {
            lemma_prims_view_empty();
        }
        let pivot: Vec3Fx = m4_tp3(&self.xform, v3_zero());
        let radius_p: Vec3Fx = v3_add(
            pivot,
            v3_scale(crate::mat4::v4_xyz(cam.get_xform().x_axis), self.size),
        );
        let p1: Option<ScreenPos> = project_to_screen(cam, pivot, vw, vh);
        let p2: Option<ScreenPos> = project_to_screen(cam, radius_p, vw, vh);
        match (p1, p2) {
            (Some(ps), Some(rs)) => {
                let cs: i64 = screen_dist(ps, rs);
                let att: i64 = cam.attenuation(pivot);
                let fill_f: i64 = fx_mul(LIGHT_FILL_FX, att);
                let stroke: Stroke = Stroke {
                    width: fx_mul(LIGHT_STROKE_FX, fx_add(att, TENTH_FX)),
                    color: Color { r: 255, g: 255, b: 160, a: 255 },
                };
                let circle: ScreenPrim = ScreenPrim::Circle {
                    center: ps,
                    radius: cs,
                    fill: Color { r: 255, g: 255, b: 0, a: crate::screen::alpha_u8(fill_f) },
                    stroke,
                };
                let ghost pre0: Seq<ScreenPrim> = prims@;
                prims.push(circle);
                proof {
                    lemma_prims_view_push(pre0, circle);
                }
                let inr: i64 = fx_mul(cs, RAY_IN_FX);
                let outr: i64 = fx_mul(cs, RAY_OUT_FX);
                let mut i: usize = 0;
                while i < 17
                    invariant
                        i <= 17,
                        inr == fx_mul_s(cs, RAY_IN_FX),
                        outr == fx_mul_s(cs, RAY_OUT_FX),
                        stroke == light_stroke_s(*self, *cam),
                        prims_view(prims@) == seq![circle@] + light_rays_prefix_s(
                            *self,
                            *cam,
                            ps,
                            cs,
                            i as int,
                        ),
                    decreases 17 - i,
                {
                    let ghost pre: Seq<ScreenPrim> = prims@;
                    let u: i64 = fx_mul(fx_div((i as i64) * 65536, RAY_DIV_FX), TWO_PI_FX);
                    let sc: (i64, i64) = sincos(u);
                    let ray: ScreenPrim = ScreenPrim::Line {
                        a: ScreenPos {
                            x: fx_add(ps.x, fx_mul(sc.1, inr)),
                            y: fx_add(ps.y, fx_mul(sc.0, inr)),
                        },
                        b: ScreenPos {
                            x: fx_add(ps.x, fx_mul(sc.1, outr)),
                            y: fx_add(ps.y, fx_mul(sc.0, outr)),
                        },
                        stroke,
                    };
                    prims.push(ray);
                    proof {
                        lemma_prims_view_push(pre, ray);
                    }
                    i = i + 1;
                }
                let label_color: Color = fade_alpha(self.color, fill_f);
                push_label(&mut prims, &self.name, Some(ps), label_color);
            },
            _ => {},
        }
        prims
    }
}

} // verus!
