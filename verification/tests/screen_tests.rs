use draw3d::fixed::ONE;
use draw3d::screen::{alpha_u8, fade_alpha, screen_dist, to_screen, Color, ScreenPos};
use draw3d::vec3::v3;

#[test]
fn ndc_origin_maps_to_canvas_center() {
    // screen = ndc * viewport + viewport/2
    let p = to_screen(v3(0, 0, ONE), 1280 * ONE, 720 * ONE);
    assert_eq!(p, ScreenPos { x: 640 * ONE, y: 360 * ONE });
}

#[test]
fn ndc_corner_maps_past_center() {
    let p = to_screen(v3(ONE / 2, -ONE / 2, ONE), 1280 * ONE, 720 * ONE);
    assert_eq!(p, ScreenPos { x: 1280 * ONE, y: 0 });
}

#[test]
fn alpha_byte_values() {
    assert_eq!(alpha_u8(ONE), 255);
    assert_eq!(alpha_u8(ONE / 2), 127);
    assert_eq!(alpha_u8(0), 0);
    assert_eq!(alpha_u8(-1), 0);
    assert_eq!(alpha_u8(2 * ONE), 255);
}

#[test]
fn fading_scales_only_the_alpha_channel() {
    let c = Color { r: 10, g: 20, b: 30, a: 255 };
    let full = fade_alpha(c, ONE);
    // (255/256) * 1.0 * 255 truncates to 254
    assert_eq!(full, Color { r: 10, g: 20, b: 30, a: 254 });
    let none = fade_alpha(c, 0);
    assert_eq!(none.a, 0);
    let half = fade_alpha(c, ONE / 2);
    assert_eq!(half.a, 127);
}

#[test]
fn screen_distance_is_euclidean() {
    let a = ScreenPos { x: 0, y: 0 };
    let b = ScreenPos { x: 3 * ONE, y: 4 * ONE };
    assert_eq!(screen_dist(a, b), 5 * ONE);
    assert_eq!(screen_dist(b, a), 5 * ONE);
    assert_eq!(screen_dist(a, a), 0);
}
