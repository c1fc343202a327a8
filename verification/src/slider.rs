//! A one-dimensional slider whose value is confined to a closed range.

use vstd::prelude::*;

verus! {

/// `x` confined to `[lo, hi]`; for `lo <= hi` the result lies in that range.
pub open spec fn clamp_int(x: int, lo: int, hi: int) -> int {
    if x < lo {
        lo
    } else if x > hi {
        hi
    } else {
        x
    }
}

/// A slider over the range `[min, max]`, in pixels of track.
pub struct Slider {
    pub min: i32,
    pub max: i32,
    pub value: i32,
}

impl Slider {
    /// The range is non-empty and the value lies inside it.
    pub open spec fn wf(&self) -> bool {
        self.min <= self.value <= self.max
    }

    /// A slider over `[min, max]` whose value is `initial` confined to the range.
    pub fn new(min: i32, max: i32, initial: i32) -> (s: Slider)
        requires
            min <= max,
        ensures
            s.min == min,
            s.max == max,
            s.value == clamp_int(initial as int, min as int, max as int),
            s.wf(),
    {
        let value: i32 = if initial < min {
            min
        } else if initial > max {
            max
        } else {
            initial
        };
        Slider { min, max, value }
    }
}

/// Moves the slider to the cursor's horizontal position, confined to the
/// slider's range, and returns the new value: the offset at which the handle
/// is drawn.
pub fn update_slider(slider: &mut Slider, cursor_x: i32) -> (left: i32)
    requires
        old(slider).min <= old(slider).max,
    ensures
        final(slider).min == old(slider).min,
        final(slider).max == old(slider).max,
        final(slider).value == clamp_int(cursor_x as int, old(slider).min as int, old(slider).max as int),
        left == final(slider).value,
        final(slider).wf(),
{
    let x: i32 = if cursor_x < slider.min {
        slider.min
    } else if cursor_x > slider.max {
        slider.max
    } else {
        cursor_x
    };
    slider.value = x;
    x
}

} // verus!
