use draw3d::camera::Perspective;
use draw3d::fixed::ONE;
use draw3d::mat4::{m4_identity, m4_translation};
use draw3d::screen::{Color, ScreenPrim};
use draw3d::shapes::cube::Cube;
use draw3d::shapes::grid::Grid;
use draw3d::shapes::point_cloud::PointCloud;
use draw3d::shapes::point_light::PointLight;
use draw3d::shapes::polymesh::Polymesh;
use draw3d::shapes::vector::Vector;
use draw3d::shapes::{render_shape, Shape};
use draw3d::vec3::v3;
use draw3d::viewport::Viewport3d;

const FOCAL: i64 = 22938;
const NEAR: i64 = 655;
const FAR: i64 = 1966080;
const VW: i64 = 1280 * ONE;
const VH: i64 = 720 * ONE;

fn example_cam() -> Perspective {
    // camera at (0, -1, 5), looking toward the origin
    Perspective::new(FOCAL, m4_translation(v3(0, -ONE, 5 * ONE)), 116508, NEAR, FAR)
}

fn white() -> Color {
    Color { r: 255, g: 255, b: 255, a: 255 }
}

#[test]
fn unit_cube_all_twelve_edges_visible() {
    let cube = Cube::new(None, m4_identity(), v3(ONE, ONE, ONE), ONE, white());
    let cam = example_cam();
    let prims = cube.render(&cam, VW, VH);
    assert_eq!(prims.len(), 12, "every edge of the cube projects");
    for p in &prims {
        match p {
            ScreenPrim::Line { .. } => {},
            _ => panic!("a cube draws only line segments"),
        }
    }
}

#[test]
fn cube_behind_camera_draws_nothing() {
    let cube = Cube::new(None, m4_translation(v3(0, 0, 100 * ONE)), v3(ONE, ONE, ONE), ONE,
        white());
    let cam = example_cam();
    let prims = cube.render(&cam, VW, VH);
    assert_eq!(prims.len(), 0);
}

#[test]
fn cube_label_drawn_at_pivot() {
    let cube = Cube::new(Some(String::from("box")), m4_identity(), v3(ONE, ONE, ONE), ONE,
        white());
    let cam = example_cam();
    let prims = cube.render(&cam, VW, VH);
    assert_eq!(prims.len(), 13);
    match prims.last().unwrap() {
        ScreenPrim::Text { text, .. } => assert_eq!(text, "box"),
        _ => panic!("the label comes last"),
    }
}

#[test]
fn grid_draws_lines_with_fixed_stroke() {
    let grid = Grid::new(ONE, m4_identity(), 2621);
    let cam = example_cam();
    let prims = grid.render(&cam, VW, VH);
    assert!(prims.len() > 0, "part of the floor grid is visible");
    assert!(prims.len() <= 800);
    for p in &prims {
        match p {
            ScreenPrim::Line { stroke, .. } => {
                assert_eq!(stroke.width, 2 * ONE);
                assert_eq!(stroke.color.r, 40);
            },
            _ => panic!("a grid draws only line segments"),
        }
    }
}

#[test]
fn vector_draws_shaft_then_tip_path() {
    let vector = Vector::new(ONE, v3(ONE, 0, 0), m4_identity(), white());
    let cam = example_cam();
    let prims = vector.render(&cam, VW, VH);
    assert_eq!(prims.len(), 2);
    match &prims[0] {
        ScreenPrim::Line { .. } => {},
        _ => panic!("the shaft is a line"),
    }
    match &prims[1] {
        ScreenPrim::Path { points, .. } => {
            assert!(points.len() > 0 && points.len() <= 600);
        },
        _ => panic!("the tip is a path"),
    }
}

#[test]
fn point_light_circle_and_seventeen_rays() {
    let light = PointLight::new(None, m4_identity(), ONE / 4, white());
    let cam = example_cam();
    let prims = light.render(&cam, VW, VH);
    assert_eq!(prims.len(), 18);
    match &prims[0] {
        ScreenPrim::Circle { stroke, .. } => {
            assert_eq!(stroke.color.r, 255);
            assert_eq!(stroke.color.b, 160);
        },
        _ => panic!("the glyph body is a circle"),
    }
    for p in &prims[1..] {
        match p {
            ScreenPrim::Line { .. } => {},
            _ => panic!("the rays are line segments"),
        }
    }
}

#[test]
fn point_cloud_shares_one_radius() {
    let pts = vec![v3(0, 0, 0), v3(ONE / 2, 0, 0), v3(0, ONE / 2, ONE / 2)];
    let cloud = PointCloud::new(Some(String::from("pc")), m4_identity(), ONE / 10, white(), pts);
    let cam = example_cam();
    let prims = cloud.render(&cam, VW, VH);
    assert_eq!(prims.len(), 4, "three circles and the label");
    let mut radius: Option<i64> = None;
    for p in &prims[..3] {
        match p {
            ScreenPrim::Circle { radius: r, .. } => {
                match radius {
                    None => radius = Some(*r),
                    Some(r0) => assert_eq!(*r, r0, "every point shares the pivot-depth radius"),
                }
            },
            _ => panic!("cloud points are circles"),
        }
    }
    match &prims[3] {
        ScreenPrim::Text { text, .. } => assert_eq!(text, "pc"),
        _ => panic!("the label comes last"),
    }
}

#[test]
fn colinear_polymesh_face_is_fully_transparent() {
    // the face's last three vertices are colinear on the X axis: the
    // normal is zero-length, the face must render with alpha 0
    let points = vec![v3(2 * ONE, 0, 0), v3(0, 0, 0), v3(ONE, 0, 0)];
    let mesh = Polymesh::new(None, m4_identity(), ONE, white(), points, vec![0, 1, 2], vec![3]);
    let cam = example_cam();
    let prims = mesh.render(&cam, VW, VH);
    assert_eq!(prims.len(), 1);
    match &prims[0] {
        ScreenPrim::Path { stroke, .. } => {
            assert_eq!(stroke.color.a, 0, "a degenerate face fades out completely");
        },
        _ => panic!("a face is a path"),
    }
}

#[test]
fn colinear_face_with_middle_vertex_is_transparent() {
    // the middle defining vertex is the exact midpoint of the outer two:
    // the edge directions are exact negations, the normal is zero-length
    let points = vec![v3(-ONE, 0, 0), v3(0, 0, 0), v3(ONE, 0, 0)];
    let mesh = Polymesh::new(None, m4_identity(), ONE, white(), points, vec![0, 1, 2], vec![3]);
    let cam = example_cam();
    let prims = mesh.render(&cam, VW, VH);
    assert_eq!(prims.len(), 1);
    match &prims[0] {
        ScreenPrim::Path { stroke, .. } => {
            assert_eq!(stroke.color.a, 0, "a degenerate face fades out completely");
        },
        _ => panic!("a face is a path"),
    }
}

#[test]
fn polymesh_triangle_facing_camera_is_visible() {
    // a triangle in the XY plane, wound so its normal faces the camera
    let points = vec![v3(-ONE, 0, 0), v3(ONE, 0, 0), v3(0, ONE, 0)];
    let mesh = Polymesh::new(None, m4_identity(), ONE, white(), points, vec![2, 1, 0], vec![3]);
    let cam = example_cam();
    let prims = mesh.render(&cam, VW, VH);
    assert_eq!(prims.len(), 1);
    match &prims[0] {
        ScreenPrim::Path { points: pts, stroke } => {
            assert_eq!(pts.len(), 3);
            assert!(stroke.color.a > 100, "a camera-facing triangle is opaque, got {}",
                stroke.color.a);
        },
        _ => panic!("a face is a path"),
    }
}

#[test]
fn polymesh_face_with_clipped_vertex_is_skipped() {
    // the first face has a vertex far behind the camera and is discarded
    // whole; the second, fully visible face still draws
    let points = vec![v3(-ONE, 0, 0), v3(ONE, 0, 0), v3(0, 0, 100 * ONE), v3(0, ONE, 0)];
    let mesh = Polymesh::new(None, m4_identity(), ONE, white(), points, vec![0, 1, 2, 3, 1, 0],
        vec![3, 3]);
    let cam = example_cam();
    let prims = mesh.render(&cam, VW, VH);
    assert_eq!(prims.len(), 1, "the face with a clipped vertex emits nothing");
    match &prims[0] {
        ScreenPrim::Path { points: pts, .. } => assert_eq!(pts.len(), 3),
        _ => panic!("a face is a path"),
    }
}

#[test]
fn polymesh_label_outlives_clipped_faces() {
    // every face vertex is behind the camera, but the pivot projects:
    // only the label is drawn
    let points = vec![v3(-ONE, 0, 100 * ONE), v3(ONE, 0, 100 * ONE), v3(0, ONE, 100 * ONE)];
    let mesh = Polymesh::new(Some(String::from("tri")), m4_identity(), ONE, white(), points,
        vec![0, 1, 2], vec![3]);
    let cam = example_cam();
    let prims = mesh.render(&cam, VW, VH);
    assert_eq!(prims.len(), 1);
    match &prims[0] {
        ScreenPrim::Text { text, .. } => assert_eq!(text, "tri"),
        _ => panic!("the clipped face leaves only the label"),
    }
}

#[test]
fn viewport_renders_scene_in_order() {
    let cube = Cube::new(None, m4_identity(), v3(ONE, ONE, ONE), ONE, white());
    let light = PointLight::new(None, m4_identity(), ONE / 4, white());
    let vp = Viewport3d::default()
        .with_camera(example_cam())
        .with_scene(vec![Shape::Cube(cube), Shape::PointLight(light)])
        .with_size(1280, 720);
    let prims = vp.render();
    // 12 cube edges, then the light's circle and 17 rays
    assert_eq!(prims.len(), 12 + 18);
    match &prims[12] {
        ScreenPrim::Circle { .. } => {},
        _ => panic!("the light's circle follows the cube's edges"),
    }
}

#[test]
fn render_shape_dispatch_matches_direct_render() {
    let cube = Cube::new(None, m4_identity(), v3(ONE, ONE, ONE), ONE, white());
    let cam = example_cam();
    let direct = cube.render(&cam, VW, VH);
    let dispatched = render_shape(&Shape::Cube(cube), &cam, VW, VH);
    assert_eq!(direct.len(), dispatched.len());
}

#[test]
fn default_viewport_configuration() {
    let vp = Viewport3d::default();
    assert_eq!(vp.width, 640);
    assert_eq!(vp.height, 480);
    assert_eq!(vp.scene.len(), 0);
    assert_eq!(vp.camera.near, 655);
    assert_eq!(vp.camera.far, 20 * ONE);
    assert_eq!(vp.camera.focal_length, 22938);
}
