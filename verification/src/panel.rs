//! Control panel state machine: a collapsible panel and a speed control
//! section that claims the speed keys only while it is eligible.
//!
//! Toggles act on press edges, never on held state: a button that stays
//! pressed over many frames toggles once.

use crate::clock::{ClockModel, SimulationTime};
use crate::picking::SelectionState;
use crate::text::{format_thousandths, thousandths};
use vstd::prelude::*;

verus! {

/// Height of the collapsed panel, in pixels.
pub const COLLAPSED_HEIGHT: u32 = 40;

/// Height of the expanded panel, in percent of its parent.
pub const EXPANDED_HEIGHT: u32 = 90;

/// What the pointer is doing to a widget this frame.
#[derive(Clone, Copy, PartialEq, Eq, Structural, Debug)]
pub enum Interaction {
    Pressed,
    Hovered,
    Idle,
}

/// A widget's interaction as of the previous frame, kept to tell a press
/// edge from a press that is merely held.
#[derive(Clone, Copy, Debug)]
pub struct PressTracker {
    pub last: Interaction,
}

impl PressTracker {
    /// A tracker for a widget that has not been touched.
    pub fn new() -> (t: PressTracker)
        ensures
            t.last == Interaction::Idle,
    {
        PressTracker { last: Interaction::Idle }
    }

    /// `now` is a press edge: the widget is pressed and was not before.
    pub open spec fn is_edge(self, now: Interaction) -> bool {
        now == Interaction::Pressed && self.last != Interaction::Pressed
    }

    /// Takes this frame's interaction and says whether it is a press edge.
    pub fn observe(&mut self, now: Interaction) -> (edge: bool)
        ensures
            edge == old(self).is_edge(now),
            final(self).last == now,
    {
        let edge = now == Interaction::Pressed && self.last != Interaction::Pressed;
        self.last = now;
        edge
    }
}

/// The collapsible panel.
#[derive(Clone, Copy, Debug)]
pub struct UiPanel {
    pub collapsed: bool,
}

/// How tall the panel is drawn.
#[derive(Clone, Copy, PartialEq, Eq, Structural, Debug)]
pub enum PanelHeight {
    /// A height in pixels.
    Pixels(u32),
    /// A height in percent of the parent.
    Percent(u32),
}

/// What follows from the panel's state for its layout.
#[derive(Clone, Copy, Debug)]
pub struct ContentLayout {
    /// The height of the panel.
    pub height: PanelHeight,
    /// Whether the content region is shown.
    pub content_visible: bool,
}

/// The glyph on the collapse button.
pub open spec fn glyph_of(collapsed: bool) -> Seq<char> {
    if collapsed {
        seq!['^']
    } else {
        seq!['>']
    }
}

impl UiPanel {
    /// The panel after a frame in which the collapse button was touched as
    /// `pressed` says: a press edge flips it, anything else leaves it.
    pub open spec fn after(self, pressed: bool) -> UiPanel {
        UiPanel { collapsed: self.collapsed != pressed }
    }

    /// The panel after the frames of `frames`, the collapse button's
    /// interaction in each, observed through `tracker`.
    pub open spec fn after_frames(self, tracker: PressTracker, frames: Seq<Interaction>) -> UiPanel
        decreases frames.len(),
    {
        if frames.len() == 0 {
            self
        } else {
            self.after_frames(tracker, frames.drop_last()).after(
                tracker_after(tracker, frames.drop_last()).is_edge(frames.last()),
            )
        }
    }

    /// The glyph on the collapse button.
    pub fn collapse_glyph(&self) -> (glyph: &'static str)
        ensures
            glyph@ == glyph_of(self.collapsed),
    {
        proof {
            reveal_strlit("^");
            reveal_strlit(">");
        }
        let glyph = if self.collapsed {
            "^"
        } else {
            ">"
        };
        assert(glyph@ =~= glyph_of(self.collapsed));
        glyph
    }
}

/// The tracker after it has observed the frames of `frames`.
pub open spec fn tracker_after(tracker: PressTracker, frames: Seq<Interaction>) -> PressTracker {
    if frames.len() == 0 {
        tracker
    } else {
        PressTracker { last: frames.last() }
    }
}

/// Flips the panel between expanded and collapsed on a press edge of the
/// collapse button, whatever else is going on, and returns the glyph that the
/// button shows from now on.
pub fn update_collapse(panel: &mut UiPanel, pressed: bool) -> (glyph: &'static str)
    ensures
        *final(panel) == old(panel).after(pressed),
        glyph@ == glyph_of(final(panel).collapsed),
{
    if pressed {
        panel.collapsed = !panel.collapsed;
    }
    panel.collapse_glyph()
}

/// The layout that follows from the panel's state: collapsed, the panel
/// shrinks to its button and hides its content.
pub fn content_visibility(panel: &UiPanel) -> (layout: ContentLayout)
    ensures
        layout.content_visible == !panel.collapsed,
        layout.height == if panel.collapsed {
            PanelHeight::Pixels(COLLAPSED_HEIGHT)
        } else {
            PanelHeight::Percent(EXPANDED_HEIGHT)
        },
{
    if panel.collapsed {
        ContentLayout { height: PanelHeight::Pixels(COLLAPSED_HEIGHT), content_visible: false }
    } else {
        ContentLayout { height: PanelHeight::Percent(EXPANDED_HEIGHT), content_visible: true }
    }
}

/// What a control section adjusts.
#[derive(Clone, Copy, PartialEq, Eq, Structural, Debug)]
pub enum SectionType {
    Speed,
}

/// A section of the panel that can be switched on to claim the keyboard.
#[derive(Clone, Copy, Debug)]
pub struct ControlSection {
    pub section_type: SectionType,
    pub is_active: bool,
}

/// How strongly a control section is lit.
#[derive(Clone, Copy, PartialEq, Eq, Structural, Debug)]
pub enum Highlight {
    /// The section is inactive.
    Neutral,
    /// The section is active and nothing is being adjusted.
    Active,
    /// The section is active and a speed key is adjusting the speed.
    Adjusting,
}

/// The speed keys that are down this frame.
#[derive(Clone, Copy, Debug)]
pub struct SpeedKeys {
    /// The key that lowers the speed.
    pub slower: bool,
    /// The key that raises the speed.
    pub faster: bool,
}

impl ControlSection {
    /// The section after a frame in which its button was touched as
    /// `pressed` says while `selected` tells whether an object is selected.
    /// A press edge flips the section, but only while nothing is selected.
    pub open spec fn after(self, pressed: bool, selected: bool) -> ControlSection {
        ControlSection {
            section_type: self.section_type,
            is_active: self.is_active != (pressed && !selected),
        }
    }

    /// The highlight of a section that is merely active or inactive.
    pub open spec fn resting_highlight(self) -> Highlight {
        if self.is_active {
            Highlight::Active
        } else {
            Highlight::Neutral
        }
    }

    /// The highlight of the section: it is a function of the state alone.
    pub open spec fn highlight_for(self, panel: UiPanel, keys: SpeedKeys) -> Highlight {
        if !self.is_active {
            Highlight::Neutral
        } else if !panel.collapsed && (keys.slower || keys.faster) {
            Highlight::Adjusting
        } else {
            Highlight::Active
        }
    }

    /// Whether held speed keys reach the clock: the section is active, the
    /// panel is expanded and nothing is selected.
    pub open spec fn claims_keys(self, panel: UiPanel, selected: bool) -> bool {
        self.is_active && !panel.collapsed && !selected
    }
}

/// Switches the section on or off on a press edge of its button. While an
/// object is selected the press is ignored, so that the same input can act
/// on the selection instead. Returns the section's highlight.
pub fn section_activation(section: &mut ControlSection, pressed: bool, selection: &SelectionState) -> (lit:
    Highlight)
    ensures
        *final(section) == old(section).after(pressed, selection.selected_entity is Some),
        selection.selected_entity is Some ==> *final(section) == *old(section),
        lit == final(section).resting_highlight(),
{
    if pressed && selection.selected_entity.is_none() {
        section.is_active = !section.is_active;
    }
    if section.is_active {
        Highlight::Active
    } else {
        Highlight::Neutral
    }
}

/// The clock after one frame of held speed keys: the faster key raises the
/// speed by `step`, then the slower key lowers it by `step`, each stopping
/// at the end of the speed range.
pub open spec fn nudged(clock: ClockModel, keys: SpeedKeys, step: nat) -> ClockModel {
    let raised = if keys.faster {
        clock.increase(step)
    } else {
        clock
    };
    if keys.slower {
        raised.decrease(step)
    } else {
        raised
    }
}

/// The clock after one frame of speed input.
pub open spec fn speed_input_model(
    clock: ClockModel,
    keys: SpeedKeys,
    panel: UiPanel,
    section: ControlSection,
    selected: bool,
    step: nat,
) -> ClockModel {
    if section.claims_keys(panel, selected) {
        nudged(clock, keys, step)
    } else {
        clock
    }
}

/// The clock after the frames of `frames`, the speed keys held in each,
/// with the panel, the section and the selection as they are.
pub open spec fn speed_after_frames(
    clock: ClockModel,
    frames: Seq<SpeedKeys>,
    panel: UiPanel,
    section: ControlSection,
    selected: bool,
    step: nat,
) -> ClockModel
    decreases frames.len(),
{
    if frames.len() == 0 {
        clock
    } else {
        speed_input_model(
            speed_after_frames(clock, frames.drop_last(), panel, section, selected, step),
            frames.last(),
            panel,
            section,
            selected,
            step,
        )
    }
}

/// Routes held speed keys to the clock. While the section is active, the
/// panel is expanded and nothing is selected, each frame in which a speed
/// key is down nudges the speed multiplier by `step`, within the speed
/// range; otherwise the clock is left alone.
pub fn speed_input(
    sim: &mut SimulationTime,
    keys: SpeedKeys,
    panel: &UiPanel,
    section: &ControlSection,
    selection: &SelectionState,
    step: u32,
)
    ensures
        final(sim)@ == speed_input_model(
            old(sim)@,
            keys,
            *panel,
            *section,
            selection.selected_entity is Some,
            step as nat,
        ),
        old(sim)@.wf() ==> final(sim)@.wf(),
{
    if selection.selected_entity.is_some() {
        return ;
    }
    if panel.collapsed {
        return ;
    }
    if !section.is_active {
        return ;
    }
    if keys.faster {
        sim.increase(step);
    }
    if keys.slower {
        sim.decrease(step);
    }
}

/// What the speed section shows.
pub struct SpeedReadout {
    /// How strongly the section is lit.
    pub highlight: Highlight,
    /// The speed multiplier with three decimal places.
    pub text: String,
}

/// What the speed section shows this frame: its highlight, and the speed
/// multiplier with three decimal places.
pub fn speed_display(sim: &SimulationTime, keys: SpeedKeys, section: &ControlSection, panel: &UiPanel) -> (shown:
    SpeedReadout)
    ensures
        shown.highlight == section.highlight_for(*panel, keys),
        shown.text@ == thousandths(sim.speed_multiplier as nat),
{
    let adjusting = !panel.collapsed && section.is_active && (keys.slower || keys.faster);
    let highlight = if section.is_active {
        if adjusting {
            Highlight::Adjusting
        } else {
            Highlight::Active
        }
    } else {
        Highlight::Neutral
    };
    SpeedReadout { highlight, text: format_thousandths(sim.speed_multiplier) }
}

/// A collapse button that is held down over any number of frames flips the
/// panel exactly once.
pub proof fn lemma_held_press_toggles_once(panel: UiPanel, tracker: PressTracker, frames: Seq<Interaction>)
    requires
        frames.len() >= 1,
        tracker.last != Interaction::Pressed,
        forall|i: int| 0 <= i < frames.len() ==> frames[i] == Interaction::Pressed,
    ensures
        panel.after_frames(tracker, frames).collapsed == !panel.collapsed,
    decreases frames.len(),
{
    if frames.len() == 1 {
        assert(frames.drop_last().len() == 0);
        assert(panel.after_frames(tracker, frames.drop_last()) == panel);
    } else {
        let earlier = frames.drop_last();
        lemma_held_press_toggles_once(panel, tracker, earlier);
        assert(earlier.last() == frames[earlier.len() - 1]);
    }
}

/// Frames without a press edge leave the panel as it was.
pub proof fn lemma_no_edge_no_toggle(panel: UiPanel, tracker: PressTracker, frames: Seq<Interaction>)
    requires
        forall|i: int| 0 <= i < frames.len() ==> frames[i] != Interaction::Pressed,
    ensures
        panel.after_frames(tracker, frames) == panel,
    decreases frames.len(),
{
    if frames.len() > 0 {
        lemma_no_edge_no_toggle(panel, tracker, frames.drop_last());
    }
}

/// While an object is selected, no press changes the control section.
pub proof fn lemma_selection_blocks_activation(section: ControlSection, pressed: bool)
    ensures
        section.after(pressed, true) == section,
        section.after(true, false).is_active == !section.is_active,
        section.after(false, false) == section,
{
}

/// However long the speed keys are held, the speed multiplier stays
/// between zero and its maximum.
pub proof fn lemma_held_keys_stay_in_range(
    clock: ClockModel,
    frames: Seq<SpeedKeys>,
    panel: UiPanel,
    section: ControlSection,
    selected: bool,
    step: nat,
)
    requires
        clock.wf(),
    ensures
        speed_after_frames(clock, frames, panel, section, selected, step).wf(),
        0 <= speed_after_frames(clock, frames, panel, section, selected, step).speed <= clock.max_speed,
        speed_after_frames(clock, frames, panel, section, selected, step).max_speed == clock.max_speed,
        speed_after_frames(clock, frames, panel, section, selected, step).elapsed == clock.elapsed,
    decreases frames.len(),
{
    if frames.len() > 0 {
        lemma_held_keys_stay_in_range(clock, frames.drop_last(), panel, section, selected, step);
    }
}

} // verus!
