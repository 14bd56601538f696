//! The closed family of drawable shapes. Each shape turns its own
//! geometry, under a camera, into an ordered list of screen primitives.

use vstd::prelude::*;

pub mod cube;
pub mod grid;
pub mod point_cloud;
pub mod point_light;
pub mod polymesh;
pub mod vector;

use crate::camera::Perspective;
use crate::screen::{prims_view, PrimView, ScreenPrim};

verus! {

/// The closed set of shape variants, dispatched by pattern matching.
#[derive(Clone, Debug)]
pub enum Shape {
    Cube(cube::Cube),
    Grid(grid::Grid),
    Vector(vector::Vector),
    PointLight(point_light::PointLight),
    PointCloud(point_cloud::PointCloud),
    Polymesh(polymesh::Polymesh),
}

/// What a shape's render call must produce.
pub open spec fn shape_render_s(s: Shape, cam: Perspective, vw: i64, vh: i64) -> Seq<PrimView> {
    match s {
        Shape::Cube(c) => cube::cube_render_s(c, cam, vw, vh),
        Shape::Grid(g) => grid::grid_render_s(g, cam, vw, vh),
        Shape::Vector(v) => vector::vector_render_s(v, cam, vw, vh),
        Shape::PointLight(l) => point_light::light_render_s(l, cam, vw, vh),
        Shape::PointCloud(c) => point_cloud::cloud_render_s(c, cam, vw, vh),
        Shape::Polymesh(m) => polymesh::mesh_render_s(m, cam, vw, vh),
    }
}

/// Shape-specific validity; trivial for every variant without indices.
pub open spec fn shape_wf_s(s: Shape) -> bool {
    match s {
        Shape::Cube(_) => true,
        Shape::Grid(_) => true,
        Shape::Vector(_) => true,
        Shape::PointLight(_) => true,
        Shape::PointCloud(_) => true,
        Shape::Polymesh(m) => polymesh::mesh_wf_s(m),
    }
}

/// Render one shape under the camera into screen primitives.
pub fn render_shape(s: &Shape, cam: &Perspective, vw: i64, vh: i64) -> (r: Vec<ScreenPrim>)
    requires
        cam.wf(),
        shape_wf_s(*s),
    ensures
        prims_view(r@) == shape_render_s(*s, *cam, vw, vh),
{
    match s {
        Shape::Cube(c) => c.render(cam, vw, vh),
        Shape::Grid(g) => g.render(cam, vw, vh),
        Shape::Vector(v) => v.render(cam, vw, vh),
        Shape::PointLight(l) => l.render(cam, vw, vh),
        Shape::PointCloud(c) => c.render(cam, vw, vh),
        Shape::Polymesh(m) => m.render(cam, vw, vh),
    }
}

} // verus!
