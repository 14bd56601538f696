//! Screen-space primitives and the projection skeleton every shape shares:
//! project a world point, map it into pixel space, and fade colors by an
//! attenuation factor.

use vstd::prelude::*;
use crate::camera::Perspective;
use crate::fixed::{
    div_z, fx_add, fx_add_s, fx_div, fx_div_s, fx_mul, fx_mul_s, fx_sub_s, fx_sq_mag, isqrt, sat,
    sqrt_s, ONE,
};
use crate::vec3::Vec3Fx;

verus! {

/// An RGBA color with 8-bit channels.
#[derive(Clone, Copy, PartialEq, Eq, Structural, Debug)]
pub struct Color {
    pub r: u8,
    pub g: u8,
    pub b: u8,
    pub a: u8,
}

/// A stroke: fixed-point pixel width and color. A width of zero means no
/// stroke is painted.
#[derive(Clone, Copy, PartialEq, Eq, Structural, Debug)]
pub struct Stroke {
    pub width: i64,
    pub color: Color,
}

/// A position on the canvas, in fixed-point pixels, relative to the
/// canvas's own origin.
#[derive(Clone, Copy, PartialEq, Eq, Structural, Debug)]
pub struct ScreenPos {
    pub x: i64,
    pub y: i64,
}

/// One 2D drawing primitive, consumed in order by the canvas.
#[derive(Clone, Debug)]
pub enum ScreenPrim {
    Line { a: ScreenPos, b: ScreenPos, stroke: Stroke },
    Circle { center: ScreenPos, radius: i64, fill: Color, stroke: Stroke },
    Path { points: Vec<ScreenPos>, stroke: Stroke },
    Text { pos: ScreenPos, text: String, size: i64, color: Color },
}

/// Normalized device coordinates mapped into pixel space:
/// `ndc * viewport + viewport/2`.
pub open spec fn to_screen_s(q: Vec3Fx, vw: i64, vh: i64) -> ScreenPos {
    ScreenPos {
        x: fx_add_s(fx_mul_s(q.x, vw), fx_div_s(vw, 131072)),
        y: fx_add_s(fx_mul_s(q.y, vh), fx_div_s(vh, 131072)),
    }
}

pub fn to_screen(q: Vec3Fx, vw: i64, vh: i64) -> (r: ScreenPos)
    ensures
        r == to_screen_s(q, vw, vh),
{
    ScreenPos {
        x: fx_add(fx_mul(q.x, vw), fx_div(vw, 131072)),
        y: fx_add(fx_mul(q.y, vh), fx_div(vh, 131072)),
    }
}

/// The shared projection skeleton: a world point to its pixel position,
/// or `None` when the camera clips it.
pub open spec fn project_screen_s(c: Perspective, p: Vec3Fx, vw: i64, vh: i64) -> Option<
    ScreenPos,
> {
    match c.project_s(p) {
        Some(q) => Some(to_screen_s(q, vw, vh)),
        None => None,
    }
}

pub fn project_to_screen(c: &Perspective, p: Vec3Fx, vw: i64, vh: i64) -> (r: Option<ScreenPos>)
    requires
        c.wf(),
    ensures
        r == project_screen_s(*c, p, vw, vh),
{
    match c.project_point(p) {
        Some(q) => Some(to_screen(q, vw, vh)),
        None => None,
    }
}

/// Euclidean distance between two screen positions.
pub open spec fn screen_dist_s(a: ScreenPos, b: ScreenPos) -> i64 {
    let dx: i64 = fx_sub_s(a.x, b.x);
    let dy: i64 = fx_sub_s(a.y, b.y);
    sat(sqrt_s(dx * dx + dy * dy))
}

pub fn screen_dist(a: ScreenPos, b: ScreenPos) -> (r: i64)
    ensures
        r == screen_dist_s(a, b),
        r >= 0,
{
    let dx: i64 = crate::fixed::fx_sub(a.x, b.x);
    let dy: i64 = crate::fixed::fx_sub(a.y, b.y);
    let n: u128 = fx_sq_mag(dx) + fx_sq_mag(dy);
    let q: u64 = isqrt(n);
    if q > 0x7fffffffffffffffu64 {
        i64::MAX
    } else {
        q as i64
    }
}

/// A fixed-point opacity factor turned into an 8-bit alpha:
/// `factor * 255`, truncated and clamped into 0..=255.
pub open spec fn alpha_u8_s(f: i64) -> u8 {
    let v: int = div_z(f * 255, ONE as int);
    if v < 0 {
        0
    } else if v > 255 {
        255
    } else {
        v as u8
    }
}

pub fn alpha_u8(f: i64) -> (r: u8)
    ensures
        r == alpha_u8_s(f),
{
    if f <= 0 {
        return 0;
    }
    let p: u128 = (f as u128) * 255;
    let q: u128 = p / 65536;
    if q > 255 {
        255
    } else {
        q as u8
    }
}

/// A color's alpha channel scaled by an opacity factor, the way every
/// shape fades its fill: `(alpha/256) * factor` turned back into a byte.
pub open spec fn fade_alpha_s(c: Color, f: i64) -> Color {
    Color { r: c.r, g: c.g, b: c.b, a: alpha_u8_s(fx_mul_s(((c.a as int) * 256) as i64, f)) }
}

pub fn fade_alpha(c: Color, f: i64) -> (r: Color)
    ensures
        r == fade_alpha_s(c, f),
{
    Color { r: c.r, g: c.g, b: c.b, a: alpha_u8(fx_mul((c.a as i64) * 256, f)) }
}

/// A sequence holding the value of an optional primitive, if any: the
/// building block of every shape's output specification.
pub open spec fn opt_seq<A>(o: Option<A>) -> Seq<A> {
    match o {
        Some(v) => seq![v],
        None => Seq::empty(),
    }
}

/// The mathematical value of a primitive: collections replaced by their
/// sequence views, so that a whole frame's output is one ghost sequence.
pub enum PrimView {
    Line { a: ScreenPos, b: ScreenPos, stroke: Stroke },
    Circle { center: ScreenPos, radius: i64, fill: Color, stroke: Stroke },
    Path { points: Seq<ScreenPos>, stroke: Stroke },
    Text { pos: ScreenPos, text: Seq<char>, size: i64, color: Color },
}

impl View for ScreenPrim {
    type V = PrimView;

    open spec fn view(&self) -> PrimView {
        match self {
            ScreenPrim::Line { a, b, stroke } => PrimView::Line { a: *a, b: *b, stroke: *stroke },
            ScreenPrim::Circle { center, radius, fill, stroke } => PrimView::Circle {
                center: *center,
                radius: *radius,
                fill: *fill,
                stroke: *stroke,
            },
            ScreenPrim::Path { points, stroke } => PrimView::Path {
                points: points@,
                stroke: *stroke,
            },
            ScreenPrim::Text { pos, text, size, color } => PrimView::Text {
                pos: *pos,
                text: text@,
                size: *size,
                color: *color,
            },
        }
    }
}

/// The values of a sequence of primitives.
pub open spec fn prims_view(v: Seq<ScreenPrim>) -> Seq<PrimView> {
    v.map_values(|p: ScreenPrim| p@)
}

pub proof fn lemma_prims_view_empty()
    ensures
        prims_view(Seq::<ScreenPrim>::empty()) == Seq::<PrimView>::empty(),
{
    assert(prims_view(Seq::<ScreenPrim>::empty()) =~= Seq::<PrimView>::empty());
}

pub proof fn lemma_prims_view_push(v: Seq<ScreenPrim>, p: ScreenPrim)
    ensures
        prims_view(v.push(p)) == prims_view(v) + seq![p@],
{
    assert(prims_view(v.push(p)) =~= prims_view(v) + seq![p@]);
}

pub proof fn lemma_prims_view_concat(a: Seq<ScreenPrim>, b: Seq<ScreenPrim>)
    ensures
        prims_view(a + b) == prims_view(a) + prims_view(b),
{
    assert(prims_view(a + b) =~= prims_view(a) + prims_view(b));
}

/// The fixed-point one half.
pub const HALF_FX: i64 = 32768;

/// The fixed-point 0.1 of the stroke-width softening terms.
pub const TENTH_FX: i64 = 6554;

/// The label font size, in fixed-point points.
pub const FONT_SIZE_FX: i64 = 1048576;

/// The primitives of an optional text label at a shape's projected
/// pivot: present only when the shape is named and the pivot projects.
pub open spec fn label_view_s(name: Option<String>, pos: Option<ScreenPos>, color: Color) -> Seq<
    PrimView,
> {
    match name {
        Some(n) => match pos {
            Some(p) => seq![
                PrimView::Text { pos: p, text: n@, size: FONT_SIZE_FX, color },
            ],
            None => Seq::empty(),
        },
        None => Seq::empty(),
    }
}

/// Append a shape's label primitive, when it has one and its anchor
/// projected.
pub fn push_label(prims: &mut Vec<ScreenPrim>, name: &Option<String>, pos: Option<ScreenPos>,
    color: Color)
    ensures
        prims_view(final(prims)@) == prims_view(old(prims)@) + label_view_s(*name, pos, color),
{
    let ghost pre: Seq<ScreenPrim> = prims@;
    match name {
        Some(n) => match pos {
            Some(p) => {
                let t: String = n.clone();
                prims.push(ScreenPrim::Text { pos: p, text: t, size: FONT_SIZE_FX, color });
                proof {
                    lemma_prims_view_push(pre, ScreenPrim::Text {
                        pos: p,
                        text: t,
                        size: FONT_SIZE_FX,
                        color,
                    });
                }
            },
            None => {
                proof {
                    assert(prims_view(prims@) =~= prims_view(pre) + label_view_s(*name, pos, color));
                }
            },
        },
        None => {
            proof {
                assert(prims_view(prims@) =~= prims_view(pre) + label_view_s(*name, pos, color));
            }
        },
    }
}

} // verus!
