//! Scroll positions in content pixels.

use vstd::prelude::*;

verus! {

/// A scroll position: horizontal and vertical offsets in content pixels.
/// Both components are non-negative by construction (`u32`); a decrement
/// below zero clamps to zero, and there is no declared upper bound.
#[derive(Clone, Copy, PartialEq, Eq, Structural, Debug)]
pub struct ScrollPosition {
    pub horizontal: u32,
    pub vertical: u32,
}

impl ScrollPosition {
    /// The top-left corner of the page, where every session starts.
    pub fn origin() -> (p: ScrollPosition)
        ensures
            p.horizontal == 0,
            p.vertical == 0,
    {
        ScrollPosition { horizontal: 0, vertical: 0 }
    }

    /// Moves up by `step` content pixels, clamping at zero.
    pub fn scrolled_up(self, step: u32) -> (p: ScrollPosition)
        ensures
            p.horizontal == self.horizontal,
            p.vertical == if self.vertical >= step { self.vertical - step } else { 0int },
    {
        let vertical = if self.vertical >= step {
            self.vertical - step
        } else {
            0
        };
        ScrollPosition { horizontal: self.horizontal, vertical }
    }

    /// Moves down by `step` content pixels. There is no upper clamp, so the
    /// new offset must still fit the offset type.
    pub fn scrolled_down(self, step: u32) -> (p: ScrollPosition)
        requires
            self.vertical + step <= u32::MAX,
        ensures
            p.horizontal == self.horizontal,
            p.vertical == self.vertical + step,
    {
        ScrollPosition { horizontal: self.horizontal, vertical: self.vertical + step }
    }
}

} // verus!
