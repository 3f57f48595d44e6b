//! Screen rectangles in whole points.
use vstd::prelude::*;

verus! {

/// An axis-aligned rectangle on the screen, in whole points, `y` growing downwards.
///
/// As in the host's own rectangles, nothing forces `min` to lie above and left of
/// `max`: a rectangle may have a negative width or height.
#[derive(Clone, Copy, Debug, PartialEq, Eq, Structural)]
pub struct Rect {
    pub min_x: i32,
    pub min_y: i32,
    pub max_x: i32,
    pub max_y: i32,
}

/// `value`, or the nearest end of the `i32` range where it lies outside.
pub open spec fn clamp_to_i32(value: int) -> int {
    if value < i32::MIN {
        i32::MIN as int
    } else if value > i32::MAX {
        i32::MAX as int
    } else {
        value
    }
}

impl Rect {
    /// The distance from the top edge to the bottom edge.
    pub open spec fn spec_height(self) -> int {
        self.max_y - self.min_y
    }

    /// This rectangle with `thickness` points cut off at its bottom edge.
    pub open spec fn spec_without_bottom(self, thickness: int) -> Rect {
        Rect {
            min_x: self.min_x,
            min_y: self.min_y,
            max_x: self.max_x,
            max_y: clamp_to_i32(self.max_y - thickness) as i32,
        }
    }

    /// The distance from the top edge to the bottom edge; negative where the edges
    /// are the other way round.
    pub fn height(&self) -> (height: i64)
        ensures
            height == self.spec_height(),
    {
        self.max_y as i64 - self.min_y as i64
    }

    /// This rectangle with `thickness` points cut off at its bottom edge. The new
    /// bottom edge stops at the end of the coordinate range.
    pub fn without_bottom(&self, thickness: i64) -> (rest: Rect)
        ensures
            rest == self.spec_without_bottom(thickness as int),
    {
        let bottom: i64 = self.max_y as i64;
        let max_y: i32 = if thickness > bottom - i32::MIN as i64 {
            i32::MIN
        } else if thickness < bottom - i32::MAX as i64 {
            i32::MAX
        } else {
            (bottom - thickness) as i32
        };
        Rect { min_x: self.min_x, min_y: self.min_y, max_x: self.max_x, max_y }
    }
}

} // verus!
