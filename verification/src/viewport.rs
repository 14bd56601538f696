//! The viewport: the canvas size, the frame's ordered scene, and the
//! camera, rendered into one ordered primitive list. Later shapes paint
//! over earlier ones; there is no depth buffer.

use vstd::prelude::*;
use crate::camera::Perspective;
use crate::mat4::m4_identity;
use crate::screen::{lemma_prims_view_concat, lemma_prims_view_empty, prims_view, PrimView,
    ScreenPrim};
use crate::shapes::{render_shape, shape_render_s, shape_wf_s, Shape};

verus! {

#[derive(Clone, Debug)]
pub struct Viewport3d {
    pub width: usize,
    pub height: usize,
    pub scene: Vec<Shape>,
    pub camera: Perspective,
}

/// Every shape of the scene is well formed.
pub open spec fn scene_wf_s(scene: Seq<Shape>) -> bool {
    forall|i: int| 0 <= i < scene.len() ==> shape_wf_s(scene[i])
}

/// The first `n` shapes' primitives, concatenated in scene order.
pub open spec fn scene_prefix_s(scene: Seq<Shape>, cam: Perspective, vw: i64, vh: i64, n: int)
    -> Seq<PrimView>
    decreases n,
{
    if n <= 0 {
        Seq::empty()
    } else {
        scene_prefix_s(scene, cam, vw, vh, n - 1) + shape_render_s(scene[n - 1], cam, vw, vh)
    }
}

/// The whole frame: every shape of the scene, in order, at the
/// viewport's fixed-point pixel size.
pub open spec fn viewport_render_s(v: Viewport3d) -> Seq<PrimView> {
    scene_prefix_s(
        v.scene@,
        v.camera,
        (v.width * 65536) as i64,
        (v.height * 65536) as i64,
        v.scene@.len() as int,
    )
}

impl Viewport3d {
    pub fn with_scene(self, scene: Vec<Shape>) -> (r: Viewport3d)
        ensures
            r == (Viewport3d { scene, ..self }),
    {
        Viewport3d { scene, ..self }
    }

    pub fn with_camera(self, camera: Perspective) -> (r: Viewport3d)
        ensures
            r == (Viewport3d { camera, ..self }),
    {
        Viewport3d { camera, ..self }
    }

    pub fn with_size(self, width: usize, height: usize) -> (r: Viewport3d)
        ensures
            r == (Viewport3d { width, height, ..self }),
    {
        Viewport3d { width, height, ..self }
    }

    /// Render the frame: one primitive list, in scene order.
    pub fn render(&self) -> (r: Vec<ScreenPrim>)
        requires
            self.camera.wf(),
            scene_wf_s(self.scene@),
            self.width <= 0x7fffffff,
            self.height <= 0x7fffffff,
        ensures
            prims_view(r@) == viewport_render_s(*self),
    {
        let vw: i64 = (self.width as i64) * 65536;
        let vh: i64 = (self.height as i64) * 65536;
        let mut prims: Vec<ScreenPrim> = Vec::new();
        proof {
            lemma_prims_view_empty();
        }
        let n: usize = self.scene.len();
        let mut i: usize = 0;
        while i < n
            invariant
                i <= n,
                n == self.scene@.len(),
                self.camera.wf(),
                scene_wf_s(self.scene@),
                vw == (self.width * 65536) as i64,
                vh == (self.height * 65536) as i64,
                self.width <= 0x7fffffff,
                self.height <= 0x7fffffff,
                prims_view(prims@) == scene_prefix_s(self.scene@, self.camera, vw, vh, i as int),
            decreases n - i,
        {
            let ghost pre: Seq<ScreenPrim> = prims@;
            let mut part: Vec<ScreenPrim> = render_shape(&self.scene[i], &self.camera, vw, vh);
            let ghost partv: Seq<ScreenPrim> = part@;
            prims.append(&mut part);
            proof {
                lemma_prims_view_concat(pre, partv);
            }
            i = i + 1;
        }
        prims
    }
}

impl Default for Viewport3d {
    /// The default viewport: a 640 by 480 canvas, an empty scene, and a
    /// camera with focal length 0.35, identity transform, unit aspect,
    /// near 0.01 and far 20, in fixed point.
    fn default() -> (r: Viewport3d)
        ensures
            r.width == 640,
            r.height == 480,
            r.scene@ == Seq::<Shape>::empty(),
            r.camera == (Perspective {
                focal_length: 22938,
                xform: crate::mat4::m4_identity_s(),
                aspect_ratio: crate::fixed::ONE,
                near: 655,
                far: 1310720,
            }),
    {
        Viewport3d {
            width: 640,
            height: 480,
            scene: Vec::new(),
            camera: Perspective::new(22938, m4_identity(), crate::fixed::ONE, 655, 1310720),
        }
    }
}

} // verus!
