use draw3d::camera::Perspective;
use draw3d::fixed::ONE;
use draw3d::mat4::{m4_identity, m4_translation, m4_tp3, v4_xyz};
use draw3d::vec3::{v3, v3_zero, Vec3Fx};

// focal length 0.35, near 0.01, far 30, in fixed point
const FOCAL: i64 = 22938;
const NEAR: i64 = 655;
const FAR: i64 = 1966080;

fn identity_cam() -> Perspective {
    Perspective::new(FOCAL, m4_identity(), ONE, NEAR, FAR)
}

#[test]
fn behind_camera_is_clipped() {
    let cam = identity_cam();
    // camera space Z >= 0: behind or at the camera
    assert_eq!(cam.project_point(v3(0, 0, ONE)), None);
    assert_eq!(cam.project_point(v3(ONE, -ONE, 5 * ONE)), None);
}

#[test]
fn camera_center_is_clipped() {
    // the camera's own position has camera-space Z exactly 0
    let cam = identity_cam();
    assert_eq!(cam.project_point(v3(0, 0, 0)), None);
}

#[test]
fn near_plane_boundary() {
    let cam = identity_cam();
    // offset along the view axis by exactly near: projected depth is 0,
    // at or before the near plane, still clipped
    assert_eq!(cam.project_point(v3(0, 0, -NEAR)), None);
    // offset by twice near: projected depth clears the near plane
    let q = cam.project_point(v3(0, 0, -2 * NEAR)).expect("in front");
    assert!(q.z > NEAR, "depth {} should clear the near plane", q.z);
}

#[test]
fn in_front_projects_with_positive_depth() {
    let xform = m4_translation(v3(0, -ONE, 5 * ONE));
    let cam = Perspective::new(FOCAL, xform, 116508, NEAR, FAR);
    let q = cam.project_point(v3(0, 0, 0)).expect("origin is in front");
    assert!(q.z > NEAR);
}

#[test]
fn center_applies_y_flip() {
    let xform = m4_translation(v3(0, -ONE, 5 * ONE));
    let cam = Perspective::new(FOCAL, xform, ONE, NEAR, FAR);
    assert_eq!(cam.get_center(), v3(0, ONE, 5 * ONE));
}

#[test]
fn distance_to_point() {
    let xform = m4_translation(v3(0, 0, 5 * ONE));
    let cam = Perspective::new(FOCAL, xform, ONE, NEAR, FAR);
    assert_eq!(cam.dist_to_point(v3(0, 0, 0)), 5 * ONE);
    assert_eq!(cam.dist_to_point(v3(3 * ONE, 4 * ONE, 5 * ONE)), 5 * ONE);
}

#[test]
fn attenuation_clamps_to_unit_interval() {
    let cam = identity_cam();
    // distance zero: factor 1
    assert_eq!(cam.attenuation(v3(0, 0, 0)), ONE);
    // distance far/2: factor exactly one half
    assert_eq!(cam.attenuation(v3(0, 0, -FAR / 2)), ONE / 2);
    // distance beyond far: clamps to 0
    assert_eq!(cam.attenuation(v3(0, 0, -2 * FAR)), 0);
    // distance exactly far: 0
    assert_eq!(cam.attenuation(v3(0, 0, FAR)), 0);
}

#[test]
fn pivot_round_trip_matches_translation() {
    let cam = Perspective::new(FOCAL, m4_translation(v3(0, -ONE, 5 * ONE)), ONE, NEAR, FAR);
    let shape_xform = m4_translation(v3(3 * ONE, 2 * ONE, -ONE));
    let pivot: Vec3Fx = m4_tp3(&shape_xform, v3_zero());
    assert_eq!(pivot, v4_xyz(shape_xform.w_axis));
    assert_eq!(cam.project_point(pivot), cam.project_point(v4_xyz(shape_xform.w_axis)));
}

#[test]
fn builder_fields() {
    let cam = Perspective::new(FOCAL, m4_identity(), ONE, NEAR, FAR);
    assert_eq!(cam.get_far(), FAR);
    assert_eq!(cam.get_xform(), m4_identity());
    assert_eq!(cam.focal_length, FOCAL);
    assert_eq!(cam.aspect_ratio, ONE);
    assert_eq!(cam.near, NEAR);
}
