//! The frame step: one ordered pass over the update stages.
//!
//! Within a frame every change that input asks for (selection, panel and
//! section toggles, speed, camera pose) is made before the simulation clock
//! advances, so that a speed change takes effect in the frame that asks
//! for it.

use crate::clock::SimulationTime;
use crate::orbit::{camera_controller, CameraController, CameraOrbit};
use crate::panel::{
    content_visibility, glyph_of, section_activation, speed_display, speed_input, speed_input_model,
    update_collapse, ContentLayout, ControlSection, Interaction, PressTracker, SpeedKeys, SpeedReadout,
    UiPanel,
};
use crate::picking::{all_in_reach, object_selection, selection_after, Candidate, Ray, SelectionState};
use crate::text::thousandths;
use vstd::prelude::*;

verus! {

/// The state that the frame step owns.
pub struct Scene {
    pub clock: SimulationTime,
    pub selection: SelectionState,
    pub panel: UiPanel,
    pub section: ControlSection,
    pub camera: CameraOrbit,
    /// The collapse button as of the previous frame.
    pub collapse_button: PressTracker,
    /// The speed section's button as of the previous frame.
    pub section_button: PressTracker,
}

/// The host's snapshot of one frame's input.
pub struct FrameInput {
    /// Real time since the previous frame, in microseconds.
    pub dt: u64,
    /// Pointer motion accumulated while the drag button was held, in
    /// thousandths of a pixel; `None` when it was not held.
    pub drag: Option<(i64, i64)>,
    /// The frame's scroll, in millionths of a line.
    pub scroll: i64,
    /// Whether the select button went down this frame.
    pub select_pressed: bool,
    /// The pick ray through the pointer, `None` when the pointer is outside
    /// the view.
    pub pick_ray: Option<Ray>,
    /// What the pointer is doing to the collapse button.
    pub collapse_button: Interaction,
    /// What the pointer is doing to the speed section's button.
    pub section_button: Interaction,
    /// The speed keys that are down.
    pub keys: SpeedKeys,
}

/// What the host draws after a frame step.
pub struct FrameOutput {
    /// The glyph on the collapse button.
    pub glyph: &'static str,
    /// The panel's layout.
    pub layout: ContentLayout,
    /// The speed section's highlight and text.
    pub readout: SpeedReadout,
}

impl Scene {
    /// Whether an object is selected once this frame's pick is resolved.
    pub open spec fn selected_after(&self, input: &FrameInput, candidates: Seq<Candidate>) -> bool {
        selection_after(self.selection.selected_entity, input.select_pressed, input.pick_ray, candidates)
            is Some
    }

    /// The panel once this frame's press on the collapse button is resolved.
    pub open spec fn panel_after(&self, input: &FrameInput) -> UiPanel {
        self.panel.after(self.collapse_button.is_edge(input.collapse_button))
    }

    /// The speed section once this frame's press on its button is resolved.
    pub open spec fn section_after(&self, input: &FrameInput, candidates: Seq<Candidate>) -> ControlSection {
        self.section.after(
            self.section_button.is_edge(input.section_button),
            self.selected_after(input, candidates),
        )
    }

    /// The speed multiplier at which the clock advances this frame: the one
    /// that this frame's input leaves.
    pub open spec fn speed_after(&self, input: &FrameInput, candidates: Seq<Candidate>, step: u32) -> nat {
        speed_input_model(
            self.clock@,
            input.keys,
            self.panel_after(input),
            self.section_after(input, candidates),
            self.selected_after(input, candidates),
            step as nat,
        ).speed
    }

    /// What the machine's integers ask of a frame: the pick's geometry is
    /// within reach, and yaw and elapsed time stay representable.
    pub open spec fn can_step(
        &self,
        controller: &CameraController,
        input: &FrameInput,
        candidates: Seq<Candidate>,
        step: u32,
    ) -> bool {
        &&& input.select_pressed ==> (input.pick_ray matches Some(r) ==> r.in_reach() && all_in_reach(
            candidates,
        ))
        &&& input.drag matches Some(d) ==> self.camera.can_drag(controller, d.0)
        &&& self.clock.elapsed + input.dt * self.speed_after(input, candidates, step) <= u64::MAX
    }
}

/// Steps the scene through one frame, in this order: the pick, the panel's
/// and the section's toggles, the speed keys, the camera, and last the
/// clock, which advances at the speed that the frame's input has left.
pub fn step_frame(
    scene: &mut Scene,
    controller: &CameraController,
    input: &FrameInput,
    candidates: &Vec<Candidate>,
    step: u32,
) -> (shown: FrameOutput)
    requires
        old(scene).can_step(controller, input, candidates@, step),
    ensures
        final(scene).selection.selected_entity == selection_after(
            old(scene).selection.selected_entity,
            input.select_pressed,
            input.pick_ray,
            candidates@,
        ),
        final(scene).collapse_button.last == input.collapse_button,
        final(scene).section_button.last == input.section_button,
        final(scene).panel == old(scene).panel_after(input),
        final(scene).section == old(scene).section_after(input, candidates@),
        final(scene).camera@ == old(scene).camera@.step(controller@, input.drag, input.scroll as int),
        final(scene).clock@.speed == old(scene).speed_after(input, candidates@, step),
        final(scene).clock@.max_speed == old(scene).clock@.max_speed,
        final(scene).clock@.elapsed == old(scene).clock@.elapsed + input.dt * old(scene).speed_after(
            input,
            candidates@,
            step,
        ),
        shown.glyph@ == glyph_of(final(scene).panel.collapsed),
        shown.layout.content_visible == !final(scene).panel.collapsed,
        shown.readout.highlight == final(scene).section.highlight_for(final(scene).panel, input.keys),
        shown.readout.text@ == thousandths(final(scene).clock.speed_multiplier as nat),
{
    object_selection(&mut scene.selection, input.select_pressed, input.pick_ray, candidates);
    let collapse_edge = scene.collapse_button.observe(input.collapse_button);
    let glyph = update_collapse(&mut scene.panel, collapse_edge);
    let section_edge = scene.section_button.observe(input.section_button);
    section_activation(&mut scene.section, section_edge, &scene.selection);
    speed_input(&mut scene.clock, input.keys, &scene.panel, &scene.section, &scene.selection, step);
    camera_controller(&mut scene.camera, controller, input.drag, input.scroll);
    scene.clock.advance(input.dt);
    let layout = content_visibility(&scene.panel);
    let readout = speed_display(&scene.clock, input.keys, &scene.section, &scene.panel);
    FrameOutput { glyph, layout, readout }
}

/// The speed at which the clock advances in a frame is neither above the
/// speed before the frame nor above the maximum, whichever is larger; so a
/// frame that fits at that speed can be stepped.
pub proof fn lemma_speed_after_bounded(scene: Scene, input: FrameInput, candidates: Seq<Candidate>, step: u32)
    ensures
        scene.speed_after(&input, candidates, step) <= scene.clock.speed_multiplier
            || scene.speed_after(&input, candidates, step) <= scene.clock.max_speed,
        scene.clock@.wf() ==> scene.speed_after(&input, candidates, step) <= scene.clock.max_speed,
{
}

} // verus!
