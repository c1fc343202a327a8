use fundamental::geometry::Point3;
use fundamental::orbit::{
    camera_controller, frame_motion, frame_scroll, keyboard_scroll, normalize_scroll, CameraController,
    CameraOrbit, MotionEvent, OrbitCamera, ScrollEvent, ScrollUnit, DEFAULT_RADIUS, PIXELS_PER_LINE,
};

/// Sensitivity 0.005 rad per pixel, zoom 0.5 per line, radius in [2, 20],
/// pitch within 1.5 rad.
fn controller() -> CameraController {
    CameraController {
        sensitivity: 5_000,
        zoom_speed: 500,
        min_radius: 2_000_000_000,
        max_radius: 20_000_000_000,
        max_pitch: 1_500_000_000,
    }
}

fn start() -> CameraOrbit {
    CameraOrbit { radius: 5_000_000_000, pitch: 200_000_000, yaw: 0 }
}

#[test]
fn a_scrolled_line_is_a_million_micro_lines() {
    assert_eq!(normalize_scroll(ScrollUnit::Line, 1_000), 1_000_000);
    assert_eq!(normalize_scroll(ScrollUnit::Line, -2_500), -2_500_000);
    assert_eq!(normalize_scroll(ScrollUnit::Line, 0), 0);
}

#[test]
fn a_scrolled_pixel_is_a_hundredth_of_a_line() {
    assert_eq!(normalize_scroll(ScrollUnit::Pixel, 1_000), 10_000);
    assert_eq!(normalize_scroll(ScrollUnit::Pixel, -40_000), -400_000);
    assert_eq!(
        normalize_scroll(ScrollUnit::Pixel, 1_000) * PIXELS_PER_LINE,
        normalize_scroll(ScrollUnit::Line, 1_000)
    );
}

#[test]
fn scroll_units_are_not_interchangeable() {
    assert_ne!(
        normalize_scroll(ScrollUnit::Pixel, 3_000),
        normalize_scroll(ScrollUnit::Line, 3_000)
    );
    assert_eq!(
        normalize_scroll(ScrollUnit::Pixel, 300_000),
        normalize_scroll(ScrollUnit::Line, 3_000)
    );
}

#[test]
fn the_widest_scroll_amounts_fit() {
    assert_eq!(normalize_scroll(ScrollUnit::Line, i32::MAX), 2_147_483_647_000);
    assert_eq!(normalize_scroll(ScrollUnit::Line, i32::MIN), -2_147_483_648_000);
    assert_eq!(normalize_scroll(ScrollUnit::Pixel, i32::MIN), -21_474_836_480);
}

#[test]
fn the_last_scroll_report_of_a_frame_counts() {
    let events = vec![
        ScrollEvent { unit: ScrollUnit::Line, amount: 1_000 },
        ScrollEvent { unit: ScrollUnit::Pixel, amount: 50_000 },
    ];
    assert_eq!(frame_scroll(&events), 500_000);
    let reversed = vec![events[1], events[0]];
    assert_eq!(frame_scroll(&reversed), 1_000_000);
}

#[test]
fn a_frame_without_scroll_events_scrolls_nothing() {
    assert_eq!(frame_scroll(&Vec::new()), 0);
}

#[test]
fn pointer_motion_adds_up_over_a_frame() {
    let events = vec![
        MotionEvent { dx: 1_500, dy: -250 },
        MotionEvent { dx: -500, dy: -250 },
        MotionEvent { dx: 3_000, dy: 1_000 },
    ];
    assert_eq!(frame_motion(&events), (4_000, 500));
    assert_eq!(frame_motion(&Vec::new()), (0, 0));
}

#[test]
fn pointer_motion_of_extreme_reports_adds_up() {
    let events = vec![MotionEvent { dx: i32::MAX, dy: i32::MIN }; 1_000];
    assert_eq!(frame_motion(&events), (2_147_483_647_000, -2_147_483_648_000));
}

#[test]
fn zoom_keys_scroll_one_line_each() {
    assert_eq!(keyboard_scroll(false, false), 0);
    assert_eq!(keyboard_scroll(true, false), 1_000_000);
    assert_eq!(keyboard_scroll(false, true), -1_000_000);
    assert_eq!(keyboard_scroll(true, true), 0);
}

#[test]
fn drag_turns_against_the_motion() {
    let c = controller();
    let mut orbit = start();
    // Ten pixels right, four pixels down.
    orbit.apply_drag(&c, 10_000, 4_000);
    assert_eq!(orbit.yaw, -50_000_000);
    assert_eq!(orbit.pitch, 200_000_000 - 20_000_000);
    assert_eq!(orbit.radius, 5_000_000_000);
    orbit.apply_drag(&c, -10_000, -4_000);
    assert_eq!(orbit.yaw, 0);
    assert_eq!(orbit.pitch, 200_000_000);
}

#[test]
fn pitch_stops_at_its_bound_whatever_the_drag() {
    let c = controller();
    let mut orbit = start();
    orbit.apply_drag(&c, 0, -1_000_000);
    assert_eq!(orbit.pitch, 1_500_000_000);
    orbit.apply_drag(&c, 0, 1_000_000_000);
    assert_eq!(orbit.pitch, -1_500_000_000);
    orbit.apply_drag(&c, 0, i64::MIN);
    assert_eq!(orbit.pitch, 1_500_000_000);
    orbit.apply_drag(&c, 0, i64::MAX);
    assert_eq!(orbit.pitch, -1_500_000_000);
    assert_eq!(orbit.yaw, 0);
}

#[test]
fn pitch_outside_its_bound_is_brought_back_by_any_drag() {
    let c = controller();
    let mut orbit = CameraOrbit { radius: 5_000_000_000, pitch: i64::MAX, yaw: 0 };
    orbit.apply_drag(&c, 0, 0);
    assert_eq!(orbit.pitch, 1_500_000_000);
    let mut low = CameraOrbit { radius: 5_000_000_000, pitch: i64::MIN, yaw: 0 };
    low.apply_drag(&c, 0, 0);
    assert_eq!(low.pitch, -1_500_000_000);
}

#[test]
fn can_drag_tells_when_the_yaw_would_not_fit() {
    let c = controller();
    let orbit = CameraOrbit { radius: 5_000_000_000, pitch: 0, yaw: i64::MAX - 4_999 };
    assert!(orbit.can_drag(&c, 0));
    assert!(orbit.can_drag(&c, 1));
    assert!(!orbit.can_drag(&c, -1));
    assert!(!orbit.can_drag(&c, i64::MIN));
    let mut edge = orbit;
    edge.apply_drag(&c, 1, 0);
    assert_eq!(edge.yaw, i64::MAX - 9_999);
}

#[test]
fn zoom_moves_by_scroll_times_zoom_speed() {
    let c = controller();
    let mut orbit = start();
    // One line towards the target: half a world unit.
    orbit.apply_zoom(&c, 1_000_000);
    assert_eq!(orbit.radius, 4_500_000_000);
    // Fifty pixels away from it: a quarter of a world unit.
    orbit.apply_zoom(&c, normalize_scroll(ScrollUnit::Pixel, -50_000));
    assert_eq!(orbit.radius, 4_750_000_000);
    assert_eq!(orbit.pitch, 200_000_000);
    assert_eq!(orbit.yaw, 0);
}

#[test]
fn radius_stays_within_its_bounds_over_any_zooms() {
    let c = controller();
    let mut orbit = start();
    let scrolls = [
        1_000_000,
        25_000_000,
        -3_000_000,
        i64::MAX,
        -90_000_000,
        i64::MIN,
        i64::MIN,
        12,
        i64::MAX,
        0,
    ];
    for s in scrolls {
        orbit.apply_zoom(&c, s);
        assert!(c.min_radius <= orbit.radius && orbit.radius <= c.max_radius);
    }
    orbit.apply_zoom(&c, i64::MAX);
    assert_eq!(orbit.radius, 2_000_000_000);
    orbit.apply_zoom(&c, i64::MIN);
    assert_eq!(orbit.radius, 20_000_000_000);
}

#[test]
fn a_frame_without_scroll_still_confines_the_radius() {
    let c = controller();
    let mut near = CameraOrbit { radius: 0, pitch: 0, yaw: 0 };
    near.apply_zoom(&c, 0);
    assert_eq!(near.radius, 2_000_000_000);
    let mut far = CameraOrbit { radius: i64::MAX, pitch: 0, yaw: 0 };
    far.apply_zoom(&c, 0);
    assert_eq!(far.radius, 20_000_000_000);
}

#[test]
fn drag_and_zoom_both_apply_within_a_frame() {
    let c = controller();
    let mut orbit = start();
    camera_controller(&mut orbit, &c, Some((2_000, -1_000)), 2_000_000);
    assert_eq!(orbit.yaw, -10_000_000);
    assert_eq!(orbit.pitch, 205_000_000);
    assert_eq!(orbit.radius, 4_000_000_000);
}

#[test]
fn a_frame_without_drag_only_zooms() {
    let c = controller();
    let mut orbit = start();
    camera_controller(&mut orbit, &c, None, keyboard_scroll(false, true));
    assert_eq!(orbit.yaw, 0);
    assert_eq!(orbit.pitch, 200_000_000);
    assert_eq!(orbit.radius, 5_500_000_000);
}

#[test]
fn a_held_drag_button_without_motion_changes_nothing() {
    let c = controller();
    let mut orbit = start();
    camera_controller(&mut orbit, &c, Some((0, 0)), 0);
    assert_eq!(orbit.yaw, 0);
    assert_eq!(orbit.pitch, 200_000_000);
    assert_eq!(orbit.radius, 5_000_000_000);
}

#[test]
fn the_focus_camera_starts_ten_units_out() {
    let camera = OrbitCamera::default();
    assert_eq!(camera.radius, DEFAULT_RADIUS);
    assert_eq!(camera.radius, 10_000_000_000);
    assert_eq!((camera.focus.x, camera.focus.y, camera.focus.z), (0, 0, 0));
    assert!(!camera.upside_down);
}

#[test]
fn the_focus_camera_zooms_within_its_bounds() {
    // Zoom 0.1 per line, radius in [1, 50].
    let c = CameraController {
        sensitivity: 2_500,
        zoom_speed: 100,
        min_radius: 1_000_000_000,
        max_radius: 50_000_000_000,
        max_pitch: 1_500_000_000,
    };
    let mut camera = OrbitCamera { focus: Point3 { x: 1, y: 2, z: 3 }, radius: 0, upside_down: true };
    camera.zoom(&c, 1_000_000);
    assert_eq!(camera.radius, 1_000_000_000);
    camera.zoom(&c, -3_000_000);
    assert_eq!(camera.radius, 1_300_000_000);
    camera.zoom(&c, i64::MIN);
    assert_eq!(camera.radius, 50_000_000_000);
    assert_eq!((camera.focus.x, camera.focus.y, camera.focus.z), (1, 2, 3));
    assert!(camera.upside_down);
}

#[test]
fn the_focus_camera_is_upside_down_when_up_points_down() {
    let mut camera = OrbitCamera::default();
    camera.track_up(-1);
    assert!(camera.upside_down);
    camera.track_up(0);
    assert!(camera.upside_down);
    camera.track_up(1);
    assert!(!camera.upside_down);
    assert_eq!(camera.radius, DEFAULT_RADIUS);
}
