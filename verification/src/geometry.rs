//! Plain integer geometry: the viewport size handed to pipeline construction
//! and the clip (scissor) rectangle handed to each draw call.

use vstd::prelude::*;

verus! {

/// A physical size in pixels, as the host reports its viewport.
#[derive(Clone, Copy, Debug, PartialEq, Eq, Structural)]
pub struct Size2 {
    pub width: u32,
    pub height: u32,
}

/// An axis-aligned rectangle in pixels, used as the scissor region a draw
/// call is confined to.
#[derive(Clone, Copy, Debug, PartialEq, Eq, Structural)]
pub struct Rect {
    pub x: u32,
    pub y: u32,
    pub width: u32,
    pub height: u32,
}

impl Rect {
    /// Whether the pixel at column `x`, row `y` lies inside the rectangle.
    pub open spec fn spec_contains(self, x: int, y: int) -> bool {
        &&& self.x <= x < self.x + self.width
        &&& self.y <= y < self.y + self.height
    }

    /// Whether the rectangle fits inside a target of the given size, so that
    /// a scissor set to it is valid for that target.
    pub open spec fn spec_within(self, width: u32, height: u32) -> bool {
        &&& self.x + self.width <= width
        &&& self.y + self.height <= height
    }

    /// Runtime check matching `spec_within`; the unverified host glue uses it
    /// before asking for a scissored draw.
    pub fn within(&self, width: u32, height: u32) -> (r: bool)
        ensures
            r == self.spec_within(width, height),
    {
        self.x as u64 + self.width as u64 <= width as u64
            && self.y as u64 + self.height as u64 <= height as u64
    }
}

} // verus!
