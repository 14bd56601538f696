use draw3d::fixed::ONE;
use draw3d::gestures::{update_camera, PointerInput};
use draw3d::mat4::{m4_translation, Mat4Fx};
use draw3d::trig::TWO_PI_FX;
use draw3d::vec3::v3;

// the shared gesture sensitivity, 0.01 in fixed point
const SENS: i64 = 655;

fn cam_xform() -> Mat4Fx {
    m4_translation(v3(0, -ONE, 5 * ONE))
}

fn max_entry_diff(a: &Mat4Fx, b: &Mat4Fx) -> i64 {
    let pairs = vec![
        (a.x_axis, b.x_axis),
        (a.y_axis, b.y_axis),
        (a.z_axis, b.z_axis),
        (a.w_axis, b.w_axis),
    ];
    let mut worst: i64 = 0;
    for (u, w) in pairs {
        for d in vec![u.x - w.x, u.y - w.y, u.z - w.z, u.w - w.w] {
            worst = worst.max(d.abs());
        }
    }
    worst
}

#[test]
fn orbit_zero_drag_is_identity() {
    let x = cam_xform();
    let input = PointerInput { drag_dx: 0, drag_dy: 0, scroll: 0, modifier: true, button: false };
    assert_eq!(update_camera(&x, input, SENS), x);
}

#[test]
fn no_gesture_is_identity() {
    let x = cam_xform();
    let input = PointerInput { drag_dx: 7 * ONE, drag_dy: -ONE, scroll: 0, modifier: false,
        button: false };
    assert_eq!(update_camera(&x, input, SENS), x);
}

#[test]
fn dolly_zero_scroll_changes_nothing() {
    let x = cam_xform();
    let input = PointerInput { drag_dx: 0, drag_dy: 0, scroll: 0, modifier: false, button: true };
    // the button alone triggers nothing: no orbit, no dolly, no pan
    assert_eq!(update_camera(&x, input, SENS), x);
}

#[test]
fn dolly_moves_strictly_closer_and_monotonically() {
    let x = m4_translation(v3(0, 0, 5 * ONE));
    let one_click = PointerInput { drag_dx: 0, drag_dy: 0, scroll: ONE, modifier: false,
        button: false };
    let two_clicks = PointerInput { scroll: 2 * ONE, ..one_click };
    let r1 = update_camera(&x, one_click, SENS);
    let r2 = update_camera(&x, two_clicks, SENS);
    // rotation columns untouched
    assert_eq!(r1.x_axis, x.x_axis);
    assert_eq!(r1.y_axis, x.y_axis);
    assert_eq!(r1.z_axis, x.z_axis);
    // strictly closer: 5.0 - 0.01 and 5.0 - 0.02 along the origin direction
    assert_eq!(r1.w_axis.z, 5 * ONE - 655);
    assert_eq!(r2.w_axis.z, 5 * ONE - 1310);
    assert!(r1.w_axis.z < x.w_axis.z);
    assert!(r2.w_axis.z < r1.w_axis.z);
}

#[test]
fn pan_translates_along_camera_axes() {
    let x = cam_xform();
    let input = PointerInput { drag_dx: ONE, drag_dy: 2 * ONE, scroll: 0, modifier: true,
        button: true };
    let r = update_camera(&x, input, SENS);
    // identity rotation: pan moves by (-dx*sens, -dy*sens, 0)
    assert_eq!(r.w_axis.x, -655);
    assert_eq!(r.w_axis.y, -ONE - 2 * 655);
    assert_eq!(r.w_axis.z, 5 * ONE);
    assert_eq!(r.x_axis, x.x_axis);
}

#[test]
fn exact_full_turn_is_exactly_identity() {
    let x = cam_xform();
    // this drag times the sensitivity comes to exactly the fixed-point
    // two-pi, which reduces to a zero angle
    let dx: i64 = 41200133;
    assert_eq!(draw3d::fixed::fx_mul(dx, SENS), TWO_PI_FX);
    let input = PointerInput { drag_dx: dx, drag_dy: 0, scroll: 0, modifier: true, button: false };
    assert_eq!(update_camera(&x, input, SENS), x);
}

#[test]
fn full_circle_orbit_returns_near_start() {
    let x = cam_xform();
    // a drag of two-pi over the sensitivity: one full turn about Y
    let dx = (TWO_PI_FX as i128 * ONE as i128 / SENS as i128) as i64;
    let input = PointerInput { drag_dx: dx, drag_dy: 0, scroll: 0, modifier: true, button: false };
    let r = update_camera(&x, input, SENS);
    let diff = max_entry_diff(&r, &x);
    assert!(diff <= 512, "full-circle orbit drifted by {diff} raw units");
}
