//! Orbit camera controller: pointer drag and scroll input become the
//! spherical parameters of a camera that circles a look target.
//!
//! Units: angles and radii are stored in billionths (nanoradians, billionths
//! of a world unit). Pointer motion arrives in thousandths of a pixel and
//! scroll amounts in thousandths of their tagged unit; sensitivity is in
//! microradians per pixel and zoom speed in thousandths of a world unit per
//! scrolled line, so every product below is exact.

use crate::geometry::{Point3, V3};
use vstd::prelude::*;

verus! {

/// How many scrolled pixels count as one scrolled line.
pub const PIXELS_PER_LINE: i64 = 100;

/// Millionths of a line in one thousandth of a line.
pub const MICRO_PER_MILLI: i64 = 1000;

/// Millionths of a line in one thousandth of a pixel:
/// `MICRO_PER_MILLI / PIXELS_PER_LINE`.
pub const MICRO_LINES_PER_MILLI_PIXEL: i64 = 10;

/// Millionths of a line scrolled by one press of a zoom key.
pub const MICRO_LINES_PER_KEY: i64 = 1_000_000;

/// `x` confined to `[lo, hi]`. For `lo <= hi` the result lies in that range.
pub open spec fn clamp(x: int, lo: int, hi: int) -> int {
    if x < lo {
        lo
    } else if x > hi {
        hi
    } else {
        x
    }
}

/// The unit in which a scroll device reports.
#[derive(Clone, Copy, PartialEq, Eq, Structural, Debug)]
pub enum ScrollUnit {
    Line,
    Pixel,
}

/// One scroll report: `amount` thousandths of `unit`, positive away from the user.
#[derive(Clone, Copy, Debug)]
pub struct ScrollEvent {
    pub unit: ScrollUnit,
    pub amount: i32,
}

/// One pointer motion report, in thousandths of a pixel.
#[derive(Clone, Copy, Debug)]
pub struct MotionEvent {
    pub dx: i32,
    pub dy: i32,
}

/// A scroll amount on the common scale, millionths of a line: a pixel is
/// `1 / PIXELS_PER_LINE` of a line.
pub open spec fn scroll_micro_lines(unit: ScrollUnit, amount: int) -> int {
    match unit {
        ScrollUnit::Line => amount * MICRO_PER_MILLI,
        ScrollUnit::Pixel => amount * MICRO_PER_MILLI / (PIXELS_PER_LINE as int),
    }
}

/// The scroll that counts for a frame: the last report, or none.
pub open spec fn last_scroll(events: Seq<ScrollEvent>) -> int {
    if events.len() == 0 {
        0
    } else {
        scroll_micro_lines(events.last().unit, events.last().amount as int)
    }
}

/// The sum of the horizontal motion of `events`.
pub open spec fn total_dx(events: Seq<MotionEvent>) -> int
    decreases events.len(),
{
    if events.len() == 0 {
        0
    } else {
        total_dx(events.drop_last()) + events.last().dx
    }
}

/// The sum of the vertical motion of `events`.
pub open spec fn total_dy(events: Seq<MotionEvent>) -> int
    decreases events.len(),
{
    if events.len() == 0 {
        0
    } else {
        total_dy(events.drop_last()) + events.last().dy
    }
}

/// The scroll that the zoom keys stand for: one line towards the target for
/// the zoom-in key, one line away for the zoom-out key.
pub open spec fn key_scroll(zoom_in: bool, zoom_out: bool) -> int {
    (if zoom_in { MICRO_LINES_PER_KEY as int } else { 0 }) - (if zoom_out { MICRO_LINES_PER_KEY as int } else { 0 })
}

/// Brings one scroll report onto the common scale, millionths of a line.
pub fn normalize_scroll(unit: ScrollUnit, amount: i32) -> (s: i64)
    ensures
        s == scroll_micro_lines(unit, amount as int),
        unit == ScrollUnit::Line ==> s == amount * 1000,
        unit == ScrollUnit::Pixel ==> s == amount * 10,
{
    match unit {
        ScrollUnit::Line => (amount as i64) * MICRO_PER_MILLI,
        ScrollUnit::Pixel => (amount as i64) * MICRO_LINES_PER_MILLI_PIXEL,
    }
}

/// The scroll to apply this frame, in millionths of a line: that of the last
/// report of the frame, zero when there was none.
pub fn frame_scroll(events: &Vec<ScrollEvent>) -> (s: i64)
    ensures
        s == last_scroll(events@),
{
    let n = events.len();
    if n == 0 {
        0
    } else {
        normalize_scroll(events[n - 1].unit, events[n - 1].amount)
    }
}

/// The pointer motion accumulated over a frame, in thousandths of a pixel.
pub fn frame_motion(events: &Vec<MotionEvent>) -> (d: (i64, i64))
    requires
        events.len() <= u32::MAX,
    ensures
        d.0 == total_dx(events@),
        d.1 == total_dy(events@),
{
    let mut dx: i64 = 0;
    let mut dy: i64 = 0;
    let mut i: usize = 0;
    while i < events.len()
        invariant
            i <= events.len() <= u32::MAX,
            dx == total_dx(events@.take(i as int)),
            dy == total_dy(events@.take(i as int)),
            -(i as int) * 0x8000_0000 <= dx <= (i as int) * 0x8000_0000,
            -(i as int) * 0x8000_0000 <= dy <= (i as int) * 0x8000_0000,
        decreases events.len() - i,
    {
        assert(events@.take(i + 1).drop_last() =~= events@.take(i as int));
        dx = dx + events[i].dx as i64;
        dy = dy + events[i].dy as i64;
        i = i + 1;
    }
    assert(events@.take(i as int) =~= events@);
    (dx, dy)
}

/// The scroll that stands for the zoom keys held this frame.
pub fn keyboard_scroll(zoom_in: bool, zoom_out: bool) -> (s: i64)
    ensures
        s == key_scroll(zoom_in, zoom_out),
{
    let towards: i64 = if zoom_in { MICRO_LINES_PER_KEY } else { 0 };
    let away: i64 = if zoom_out { MICRO_LINES_PER_KEY } else { 0 };
    towards - away
}

/// How pointer and scroll input move the camera, and how far it may go.
#[derive(Clone, Copy, Debug)]
pub struct CameraController {
    /// Microradians turned per pixel of drag.
    pub sensitivity: i64,
    /// Thousandths of a world unit travelled per scrolled line.
    pub zoom_speed: i64,
    /// Nearest orbit radius, in billionths of a world unit.
    pub min_radius: i64,
    /// Farthest orbit radius, in billionths of a world unit.
    pub max_radius: i64,
    /// Largest pitch to either side of the horizon, in nanoradians.
    pub max_pitch: u32,
}

/// The mathematical content of a [`CameraController`].
pub struct ControllerModel {
    pub sensitivity: int,
    pub zoom_speed: int,
    pub min_radius: int,
    pub max_radius: int,
    pub max_pitch: int,
}

impl ControllerModel {
    /// The radius range is not empty and the pitch range holds the horizon.
    pub open spec fn wf(self) -> bool {
        self.min_radius <= self.max_radius && 0 <= self.max_pitch
    }
}

impl View for CameraController {
    type V = ControllerModel;

    open spec fn view(&self) -> ControllerModel {
        ControllerModel {
            sensitivity: self.sensitivity as int,
            zoom_speed: self.zoom_speed as int,
            min_radius: self.min_radius as int,
            max_radius: self.max_radius as int,
            max_pitch: self.max_pitch as int,
        }
    }
}

/// Camera pose as spherical parameters about the look target.
#[derive(Clone, Copy, Debug)]
pub struct CameraOrbit {
    /// Distance from the target, in billionths of a world unit.
    pub radius: i64,
    /// Elevation above the horizon, in nanoradians.
    pub pitch: i64,
    /// Angle about the vertical axis, in nanoradians.
    pub yaw: i64,
}

/// The mathematical content of a [`CameraOrbit`].
pub struct OrbitModel {
    pub radius: int,
    pub pitch: int,
    pub yaw: int,
}

impl OrbitModel {
    /// Radius and pitch lie within the controller's bounds.
    pub open spec fn within(self, c: ControllerModel) -> bool {
        &&& c.min_radius <= self.radius <= c.max_radius
        &&& -c.max_pitch <= self.pitch <= c.max_pitch
    }

    /// The pose after a drag of `(dx, dy)` thousandths of a pixel: yaw and
    /// pitch turn against the motion, and pitch stops at the pitch bound.
    pub open spec fn drag(self, c: ControllerModel, dx: int, dy: int) -> OrbitModel {
        OrbitModel {
            radius: self.radius,
            pitch: clamp(self.pitch - dy * c.sensitivity, -c.max_pitch, c.max_pitch),
            yaw: self.yaw - dx * c.sensitivity,
        }
    }

    /// The pose after a scroll of `scroll` millionths of a line: the radius
    /// shrinks by the scroll times the zoom speed and stops at the radius bounds.
    pub open spec fn zoom(self, c: ControllerModel, scroll: int) -> OrbitModel {
        OrbitModel {
            radius: clamp(self.radius - scroll * c.zoom_speed, c.min_radius, c.max_radius),
            pitch: self.pitch,
            yaw: self.yaw,
        }
    }

    /// One frame of camera control: the drag, if the drag button is held,
    /// then the zoom.
    pub open spec fn step(self, c: ControllerModel, drag: Option<(i64, i64)>, scroll: int) -> OrbitModel {
        let turned = match drag {
            Some(d) => self.drag(c, d.0 as int, d.1 as int),
            None => self,
        };
        turned.zoom(c, scroll)
    }

    /// The pose after the scrolls of `scrolls`, one per frame, in order.
    pub open spec fn zoom_all(self, c: ControllerModel, scrolls: Seq<int>) -> OrbitModel
        decreases scrolls.len(),
    {
        if scrolls.len() == 0 {
            self
        } else {
            self.zoom_all(c, scrolls.drop_last()).zoom(c, scrolls.last())
        }
    }

    /// The pose after the drags of `drags`, one per frame, in order.
    pub open spec fn drag_all(self, c: ControllerModel, drags: Seq<(int, int)>) -> OrbitModel
        decreases drags.len(),
    {
        if drags.len() == 0 {
            self
        } else {
            self.drag_all(c, drags.drop_last()).drag(c, drags.last().0, drags.last().1)
        }
    }
}

impl View for CameraOrbit {
    type V = OrbitModel;

    open spec fn view(&self) -> OrbitModel {
        OrbitModel { radius: self.radius as int, pitch: self.pitch as int, yaw: self.yaw as int }
    }
}

/// The product of two stored values fits the widest integer with room to
/// add a third.
proof fn lemma_product_fits(x: i64, y: i64)
    ensures
        -0x4000_0000_0000_0000_0000_0000_0000_0000 <= x * y <= 0x4000_0000_0000_0000_0000_0000_0000_0000,
{
    assert(-0x4000_0000_0000_0000_0000_0000_0000_0000 <= x * y
        <= 0x4000_0000_0000_0000_0000_0000_0000_0000) by (nonlinear_arith)
        requires
            i64::MIN <= x <= i64::MAX,
            i64::MIN <= y <= i64::MAX,
    ;
}

/// `x` confined to `[lo, hi]`, for a value too wide for the stored width.
fn clamp_wide(x: i128, lo: i64, hi: i64) -> (r: i64)
    ensures
        r == clamp(x as int, lo as int, hi as int),
{
    if x < lo as i128 {
        lo
    } else if x > hi as i128 {
        hi
    } else {
        x as i64
    }
}

impl CameraOrbit {
    /// Whether a drag of `dx` thousandths of a pixel leaves the yaw representable.
    pub open spec fn spec_can_drag(&self, c: &CameraController, dx: i64) -> bool {
        i64::MIN <= self.yaw - dx * c.sensitivity <= i64::MAX
    }

    /// Whether a drag of `dx` thousandths of a pixel leaves the yaw
    /// representable, which [`CameraOrbit::apply_drag`] asks for.
    #[verifier::when_used_as_spec(spec_can_drag)]
    pub fn can_drag(&self, c: &CameraController, dx: i64) -> (b: bool)
        ensures
            b == self.can_drag(c, dx),
    {
        proof {
            lemma_product_fits(dx, c.sensitivity);
        }
        let yaw: i128 = self.yaw as i128 - (dx as i128) * (c.sensitivity as i128);
        i64::MIN as i128 <= yaw && yaw <= i64::MAX as i128
    }

    /// Turns the camera by a drag of `(dx, dy)` thousandths of a pixel.
    pub fn apply_drag(&mut self, c: &CameraController, dx: i64, dy: i64)
        requires
            old(self).can_drag(c, dx),
        ensures
            final(self)@ == old(self)@.drag(c@, dx as int, dy as int),
            -c.max_pitch <= final(self).pitch <= c.max_pitch,
    {
        proof {
            lemma_product_fits(dy, c.sensitivity);
            lemma_product_fits(dx, c.sensitivity);
        }
        let turn: i128 = (dx as i128) * (c.sensitivity as i128);
        let tilt: i128 = (dy as i128) * (c.sensitivity as i128);
        let limit: i64 = c.max_pitch as i64;
        self.pitch = clamp_wide(self.pitch as i128 - tilt, -limit, limit);
        self.yaw = (self.yaw as i128 - turn) as i64;
    }

    /// Moves the camera along its line of sight by a scroll of `scroll`
    /// millionths of a line, staying within the radius bounds.
    pub fn apply_zoom(&mut self, c: &CameraController, scroll: i64)
        ensures
            final(self)@ == old(self)@.zoom(c@, scroll as int),
            c@.wf() ==> c.min_radius <= final(self).radius <= c.max_radius,
    {
        proof {
            lemma_product_fits(scroll, c.zoom_speed);
        }
        let travel: i128 = (scroll as i128) * (c.zoom_speed as i128);
        self.radius = clamp_wide(self.radius as i128 - travel, c.min_radius, c.max_radius);
    }
}

/// One frame of camera control. `drag` is the pointer motion accumulated
/// while the drag button was held, `None` when it was not held; `scroll` is
/// the frame's scroll in millionths of a line. Drag and zoom are independent
/// and both apply within the frame.
pub fn camera_controller(
    orbit: &mut CameraOrbit,
    c: &CameraController,
    drag: Option<(i64, i64)>,
    scroll: i64,
)
    requires
        drag matches Some(d) ==> old(orbit).can_drag(c, d.0),
    ensures
        final(orbit)@ == old(orbit)@.step(c@, drag, scroll as int),
        c@.wf() ==> c.min_radius <= final(orbit).radius <= c.max_radius,
        c@.wf() && -c.max_pitch <= old(orbit).pitch <= c.max_pitch ==> final(orbit)@.within(c@),
{
    match drag {
        Some(d) => {
            orbit.apply_drag(c, d.0, d.1);
        },
        None => {},
    }
    orbit.apply_zoom(c, scroll);
}

/// A camera that orbits a focus point, with its orientation kept by the
/// host as a rotation. `upside_down` records on which side of the pole the
/// camera stands, where the look-at direction is undefined.
#[derive(Clone, Copy, Debug)]
pub struct OrbitCamera {
    /// The point looked at, in thousandths of a world unit.
    pub focus: Point3,
    /// Distance from the focus, in billionths of a world unit.
    pub radius: i64,
    /// Whether the camera's up vector points downwards.
    pub upside_down: bool,
}

/// The radius of a new [`OrbitCamera`], in billionths of a world unit.
pub const DEFAULT_RADIUS: i64 = 10_000_000_000;

impl Default for OrbitCamera {
    /// A camera ten world units from the origin, the right way up.
    fn default() -> (camera: OrbitCamera)
        ensures
            camera.focus@ == (V3 { x: 0, y: 0, z: 0 }),
            camera.radius == DEFAULT_RADIUS,
            !camera.upside_down,
    {
        OrbitCamera { focus: Point3 { x: 0, y: 0, z: 0 }, radius: DEFAULT_RADIUS, upside_down: false }
    }
}

impl OrbitCamera {
    /// Moves the camera along its line of sight by a scroll of `scroll`
    /// millionths of a line, staying within the radius bounds.
    pub fn zoom(&mut self, c: &CameraController, scroll: i64)
        ensures
            final(self).radius == clamp(
                old(self).radius - scroll * c.zoom_speed,
                c.min_radius as int,
                c.max_radius as int,
            ),
            final(self).focus == old(self).focus,
            final(self).upside_down == old(self).upside_down,
            c@.wf() ==> c.min_radius <= final(self).radius <= c.max_radius,
    {
        proof {
            lemma_product_fits(scroll, c.zoom_speed);
        }
        let travel: i128 = (scroll as i128) * (c.zoom_speed as i128);
        self.radius = clamp_wide(self.radius as i128 - travel, c.min_radius, c.max_radius);
    }

    /// Records the side of the pole on which the camera stands, from the
    /// vertical component `up_y` of its rotated up vector: it is upside
    /// down when that component is not positive.
    pub fn track_up(&mut self, up_y: i64)
        ensures
            final(self).upside_down == (up_y <= 0),
            final(self).focus == old(self).focus,
            final(self).radius == old(self).radius,
    {
        self.upside_down = up_y <= 0;
    }
}

/// One frame of camera control leaves radius and pitch within their bounds,
/// whatever the size or sign of the input.
pub proof fn lemma_step_within(orbit: OrbitModel, c: ControllerModel, dx: int, dy: int, scroll: int)
    requires
        c.wf(),
    ensures
        orbit.drag(c, dx, dy).zoom(c, scroll).within(c),
        c.min_radius <= orbit.zoom(c, scroll).radius <= c.max_radius,
        -c.max_pitch <= orbit.drag(c, dx, dy).pitch <= c.max_pitch,
        orbit.within(c) ==> orbit.zoom(c, scroll).within(c) && orbit.drag(c, dx, dy).within(c),
{
}

/// After any sequence of zooms the orbit radius lies within its bounds;
/// after none it is where it was.
pub proof fn lemma_zoom_stays_in_range(orbit: OrbitModel, c: ControllerModel, scrolls: Seq<int>)
    requires
        c.wf(),
    ensures
        scrolls.len() > 0 ==> c.min_radius <= orbit.zoom_all(c, scrolls).radius <= c.max_radius,
        scrolls.len() == 0 ==> orbit.zoom_all(c, scrolls) == orbit,
        orbit.zoom_all(c, scrolls).pitch == orbit.pitch,
        orbit.zoom_all(c, scrolls).yaw == orbit.yaw,
    decreases scrolls.len(),
{
    if scrolls.len() > 0 {
        lemma_zoom_stays_in_range(orbit, c, scrolls.drop_last());
    }
}

/// After any sequence of drags the pitch lies within its bounds; after none
/// it is where it was.
pub proof fn lemma_drag_stays_in_range(orbit: OrbitModel, c: ControllerModel, drags: Seq<(int, int)>)
    requires
        c.wf(),
    ensures
        drags.len() > 0 ==> -c.max_pitch <= orbit.drag_all(c, drags).pitch <= c.max_pitch,
        drags.len() == 0 ==> orbit.drag_all(c, drags) == orbit,
        orbit.drag_all(c, drags).radius == orbit.radius,
    decreases drags.len(),
{
    if drags.len() > 0 {
        lemma_drag_stays_in_range(orbit, c, drags.drop_last());
    }
}

} // verus!
