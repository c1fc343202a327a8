use bevy::ecs::entity::Entity;
use fundamental::clock::SimulationTime;
use fundamental::frame::{step_frame, FrameInput, Scene};
use fundamental::geometry::Point3;
use fundamental::orbit::{CameraController, CameraOrbit};
use fundamental::panel::{
    ControlSection, Highlight, Interaction, PanelHeight, PressTracker, SectionType, SpeedKeys, UiPanel,
};
use fundamental::picking::{Candidate, Ray, SelectionState};

fn controller() -> CameraController {
    CameraController {
        sensitivity: 5_000,
        zoom_speed: 500,
        min_radius: 2_000_000_000,
        max_radius: 20_000_000_000,
        max_pitch: 1_500_000_000,
    }
}

fn scene() -> Scene {
    Scene {
        clock: SimulationTime::new(10, 100),
        selection: SelectionState { selected_entity: None },
        panel: UiPanel { collapsed: false },
        section: ControlSection { section_type: SectionType::Speed, is_active: false },
        camera: CameraOrbit { radius: 5_000_000_000, pitch: 200_000_000, yaw: 0 },
        collapse_button: PressTracker::new(),
        section_button: PressTracker::new(),
    }
}

fn quiet(dt: u64) -> FrameInput {
    FrameInput {
        dt,
        drag: None,
        scroll: 0,
        select_pressed: false,
        pick_ray: None,
        collapse_button: Interaction::Idle,
        section_button: Interaction::Idle,
        keys: SpeedKeys { slower: false, faster: false },
    }
}

fn spheres() -> Vec<Candidate> {
    vec![Candidate { entity: Entity::from_raw(1), center: Point3 { x: 0, y: 0, z: 0 }, radius: 500 }]
}

fn at_the_sphere() -> Ray {
    Ray { origin: Point3 { x: 0, y: 0, z: 5_000 }, direction: Point3 { x: 0, y: 0, z: -1_000 } }
}

#[test]
fn a_quiet_frame_only_advances_the_clock() {
    let mut s = scene();
    let shown = step_frame(&mut s, &controller(), &quiet(16_667), &spheres(), 1);
    assert_eq!(s.clock.elapsed, 166_670);
    assert_eq!(s.clock.speed_multiplier, 10);
    assert_eq!(s.selection.selected_entity, None);
    assert!(!s.panel.collapsed);
    assert!(!s.section.is_active);
    assert_eq!((s.camera.radius, s.camera.pitch, s.camera.yaw), (5_000_000_000, 200_000_000, 0));
    assert_eq!(shown.glyph, ">");
    assert_eq!(shown.layout.height, PanelHeight::Percent(90));
    assert!(shown.layout.content_visible);
    assert_eq!(shown.readout.highlight, Highlight::Neutral);
    assert_eq!(shown.readout.text, "0.010");
}

#[test]
fn a_speed_change_takes_effect_in_the_frame_that_asks_for_it() {
    let mut s = scene();
    s.section.is_active = true;
    let mut input = quiet(1_000);
    input.keys.faster = true;
    let shown = step_frame(&mut s, &controller(), &input, &spheres(), 5);
    assert_eq!(s.clock.speed_multiplier, 15);
    assert_eq!(s.clock.elapsed, 15_000);
    assert_eq!(shown.readout.text, "0.015");
    assert_eq!(shown.readout.highlight, Highlight::Adjusting);
}

#[test]
fn the_section_claims_the_keys_in_the_frame_that_activates_it() {
    let mut s = scene();
    let mut input = quiet(1_000);
    input.section_button = Interaction::Pressed;
    input.keys.faster = true;
    step_frame(&mut s, &controller(), &input, &spheres(), 1);
    assert!(s.section.is_active);
    assert_eq!(s.clock.speed_multiplier, 11);
    assert_eq!(s.clock.elapsed, 11_000);
    // The press is still held: no second toggle.
    step_frame(&mut s, &controller(), &input, &spheres(), 1);
    assert!(s.section.is_active);
    assert_eq!(s.clock.speed_multiplier, 12);
    assert_eq!(s.clock.elapsed, 23_000);
}

#[test]
fn a_pick_in_the_same_frame_blocks_the_section_press() {
    let mut s = scene();
    let mut input = quiet(1_000);
    input.select_pressed = true;
    input.pick_ray = Some(at_the_sphere());
    input.section_button = Interaction::Pressed;
    input.keys.faster = true;
    let shown = step_frame(&mut s, &controller(), &input, &spheres(), 1);
    assert_eq!(s.selection.selected_entity, Some(Entity::from_raw(1)));
    assert!(!s.section.is_active);
    assert_eq!(s.clock.speed_multiplier, 10);
    assert_eq!(s.clock.elapsed, 10_000);
    assert_eq!(shown.readout.highlight, Highlight::Neutral);
}

#[test]
fn a_selection_keeps_the_keys_from_the_clock() {
    let mut s = scene();
    s.section.is_active = true;
    s.selection.selected_entity = Some(Entity::from_raw(1));
    let mut input = quiet(1_000);
    input.keys.slower = true;
    step_frame(&mut s, &controller(), &input, &spheres(), 1);
    assert_eq!(s.clock.speed_multiplier, 10);
    // A press that picks nothing clears the selection and frees the keys.
    input.select_pressed = true;
    input.pick_ray = Some(Ray {
        origin: Point3 { x: 0, y: 0, z: 5_000 },
        direction: Point3 { x: 0, y: 0, z: 1_000 },
    });
    step_frame(&mut s, &controller(), &input, &spheres(), 1);
    assert_eq!(s.selection.selected_entity, None);
    assert_eq!(s.clock.speed_multiplier, 9);
}

#[test]
fn a_held_collapse_press_flips_the_panel_once_over_ten_frames() {
    let mut s = scene();
    let mut input = quiet(1_000);
    input.collapse_button = Interaction::Pressed;
    for _ in 0..10 {
        let shown = step_frame(&mut s, &controller(), &input, &spheres(), 1);
        assert!(s.panel.collapsed);
        assert_eq!(shown.glyph, "^");
        assert_eq!(shown.layout.height, PanelHeight::Pixels(40));
        assert!(!shown.layout.content_visible);
    }
    input.collapse_button = Interaction::Hovered;
    step_frame(&mut s, &controller(), &input, &spheres(), 1);
    input.collapse_button = Interaction::Pressed;
    let shown = step_frame(&mut s, &controller(), &input, &spheres(), 1);
    assert!(!s.panel.collapsed);
    assert_eq!(shown.glyph, ">");
    assert_eq!(s.clock.elapsed, 12 * 10_000);
}

#[test]
fn collapsing_the_panel_keeps_the_keys_from_the_clock_in_that_frame() {
    let mut s = scene();
    s.section.is_active = true;
    let mut input = quiet(1_000);
    input.collapse_button = Interaction::Pressed;
    input.keys.faster = true;
    let shown = step_frame(&mut s, &controller(), &input, &spheres(), 1);
    assert!(s.panel.collapsed);
    assert_eq!(s.clock.speed_multiplier, 10);
    assert_eq!(shown.readout.highlight, Highlight::Active);
}

#[test]
fn the_camera_moves_in_the_same_frame() {
    let mut s = scene();
    let mut input = quiet(0);
    input.drag = Some((2_000, -1_000));
    input.scroll = 2_000_000;
    step_frame(&mut s, &controller(), &input, &spheres(), 1);
    assert_eq!((s.camera.radius, s.camera.pitch, s.camera.yaw), (4_000_000_000, 205_000_000, -10_000_000));
    assert_eq!(s.clock.elapsed, 0);
}
