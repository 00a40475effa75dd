use scene_core::camera::OrbitCamera;
use scene_core::camera::MAX_RADIUS;
use scene_core::camera::MIN_RADIUS;
use scene_core::camera::PI_ANGLE;
use scene_core::spin::HALF_PI_ANGLE;
use scene_core::style::Rgb;
use scene_core::style::Theme;
use scene_core::ui::ui_frame;
use scene_core::ui::OccupiedScreenSpace;
use scene_core::ui::SIDE_PANEL_MAX_WIDTH;

#[test]
fn startup_camera_looks_at_origin_right_side_up() {
    let c = OrbitCamera::startup();
    assert_eq!((c.focus_x, c.focus_y, c.focus_z), (0, 0, 0));
    assert_eq!(c.radius, 5_220);
    assert_eq!(c.yaw, 0);
    assert!(!c.upside_down);
    assert!(c.pitch.abs() <= HALF_PI_ANGLE);
}

#[test]
fn rotation_adds_the_delta_while_right_side_up() {
    let mut c = OrbitCamera::startup();
    c.rotate(10_000, -20_000);
    assert_eq!(c.yaw, 10_000);
    assert_eq!(c.pitch, 291_457 - 20_000);
    assert!(!c.upside_down);
}

#[test]
fn crossing_the_pole_flips_upside_down_and_inverts_yaw() {
    let mut c = OrbitCamera::startup();
    // Pitch up to just below the pole: still right side up.
    c.rotate(0, HALF_PI_ANGLE - 1 - c.pitch);
    assert_eq!(c.pitch, HALF_PI_ANGLE - 1);
    assert!(!c.upside_down);
    // The same device drag direction on both sides of the pole.
    c.rotate(5_000, 0);
    assert_eq!(c.yaw, 5_000);
    // Step past the pole; the yaw delta of this gesture is still upright.
    c.rotate(5_000, 2);
    assert_eq!(c.yaw, 10_000);
    assert_eq!(c.pitch, HALF_PI_ANGLE + 1);
    assert!(c.upside_down);
    // Beyond the pole the same device direction now applies inverted.
    c.rotate(5_000, 0);
    assert_eq!(c.yaw, 5_000);
}

#[test]
fn the_negative_pole_inverts_the_same_way() {
    let mut c = OrbitCamera::startup();
    c.rotate(0, -HALF_PI_ANGLE - 10 - c.pitch);
    assert_eq!(c.pitch, -HALF_PI_ANGLE - 10);
    assert!(c.upside_down);
    c.rotate(7_000, 0);
    assert_eq!(c.yaw, -7_000);
}

#[test]
fn angles_wrap_to_the_half_open_turn() {
    let mut c = OrbitCamera::startup();
    c.rotate(PI_ANGLE, 0);
    assert_eq!(c.yaw, PI_ANGLE);
    c.rotate(1, 0);
    assert_eq!(c.yaw, PI_ANGLE + 1 - 2 * PI_ANGLE);
}

#[test]
fn pan_translates_the_focus_only() {
    let mut c = OrbitCamera::startup();
    c.pan(1_000, -2_000, 3_000);
    assert_eq!((c.focus_x, c.focus_y, c.focus_z), (1_000, -2_000, 3_000));
    assert_eq!(c.radius, 5_220);
    assert_eq!(c.yaw, 0);
}

#[test]
fn zoom_in_scales_by_four_fifths() {
    let mut c = OrbitCamera::startup();
    c.zoom_in();
    assert_eq!(c.radius, 4_176);
    c.zoom_out();
    assert_eq!(c.radius, 5_220);
}

#[test]
fn repeated_zoom_in_never_reaches_zero() {
    let mut c = OrbitCamera::startup();
    for _ in 0..200 {
        c.zoom_in();
        assert!(c.radius >= MIN_RADIUS);
        assert!(c.radius > 0);
    }
    assert_eq!(c.radius, MIN_RADIUS);
}

#[test]
fn zoom_out_is_capped() {
    let mut c = OrbitCamera::startup();
    for _ in 0..200 {
        c.zoom_out();
        assert!(c.radius <= MAX_RADIUS);
    }
    assert_eq!(c.radius, MAX_RADIUS);
}

#[test]
fn nothing_is_reserved_before_the_first_frame() {
    let s = OccupiedScreenSpace::default();
    assert_eq!((s.left, s.top, s.right, s.bottom), (0, 0, 0, 0));
}

#[test]
fn the_snapshot_is_fresh_every_frame() {
    let mut s = OccupiedScreenSpace::default();
    let w1 = ui_frame(&mut s, 300, 1920, 1080);
    assert_eq!(w1, 300);
    assert_eq!(s.left, 300);
    assert_eq!(s.top, 20);
    assert_eq!(s.right, 200);
    assert_eq!(s.bottom, 0);
    // A smaller panel the next frame: no stale carryover of the wider one.
    let w2 = ui_frame(&mut s, 120, 1920, 1080);
    assert_eq!(w2, 120);
    assert_eq!(s.left, 120);
}

#[test]
fn panel_width_is_clamped_to_its_maximum_and_the_viewport() {
    let mut s = OccupiedScreenSpace::default();
    assert_eq!(ui_frame(&mut s, 1_000, 1920, 1080), SIDE_PANEL_MAX_WIDTH);
    assert_eq!(ui_frame(&mut s, 1_000, 150, 10), 150);
    assert_eq!(s.left, 150);
    assert_eq!(s.top, 10);
    assert_eq!(s.right, 150);
}

#[test]
fn light_theme_palette() {
    let t = Theme::light();
    assert!(!t.dark);
    assert_eq!(t.bg_color, Rgb { r: 255, g: 255, b: 255 });
    assert_eq!(t.panel_bg_color, Rgb { r: 248, g: 248, b: 248 });
    assert_eq!(t.highlight_color, Rgb { r: 90, g: 129, b: 255 });
    assert_eq!(t.strong, Rgb { r: 1, g: 1, b: 1 });
    assert_eq!(t.floating_color, Rgb { r: 195, g: 195, b: 195 });
}

#[test]
fn dark_theme_palette() {
    let t = Theme::dark();
    assert!(t.dark);
    assert_eq!(t.bg_color, Rgb { r: 0, g: 0, b: 0 });
    assert_eq!(t.panel_bg_color, Rgb { r: 13, g: 16, b: 17 });
    assert_eq!(t.inactive_bg_fill, Rgb { r: 5, g: 6, b: 7 });
    assert_eq!(t.default_text, Rgb { r: 202, g: 216, b: 222 });
    assert_eq!(t.subdued, Rgb { r: 108, g: 121, b: 127 });
}
