//! Plane geometry over milli-pixel coordinates: points, axis-aligned
//! rectangles, and the overlap test that every collision check uses.

use vstd::prelude::*;

verus! {

/// Coordinates whose absolute value stays below this bound can be
/// offset by any rectangle size used in the crate without leaving the
/// range in which `i64` sums are exact.
pub const COORD_LIMIT_MILLI: i64 = 2_000_000_000_000_000;

/// A point or extent in the plane, in milli-pixels.
#[derive(Clone, Copy, Debug, PartialEq, Eq, Structural)]
pub struct Vec2i {
    pub x: i64,
    pub y: i64,
}

/// An axis-aligned rectangle in milli-pixels: top-left corner plus size.
#[derive(Clone, Copy, Debug, PartialEq, Eq, Structural)]
pub struct Rect {
    pub x: i64,
    pub y: i64,
    pub w: i64,
    pub h: i64,
}

impl Vec2i {
    /// Both components lie within the given bound.
    pub open spec fn within(self, limit: i64) -> bool {
        -limit <= self.x <= limit && -limit <= self.y <= limit
    }
}

impl Rect {
    /// All four fields are small enough that corner sums fit in `i64`.
    pub open spec fn in_bounds(self) -> bool {
        -COORD_LIMIT_MILLI <= self.x <= COORD_LIMIT_MILLI
            && -COORD_LIMIT_MILLI <= self.y <= COORD_LIMIT_MILLI
            && -COORD_LIMIT_MILLI <= self.w <= COORD_LIMIT_MILLI
            && -COORD_LIMIT_MILLI <= self.h <= COORD_LIMIT_MILLI
    }
}

/// Two axis-aligned rectangles overlap in a region of positive area:
/// each one's left edge lies strictly left of the other's right edge,
/// and each one's top edge strictly above the other's bottom edge.
pub open spec fn rects_intersect(a: Rect, b: Rect) -> bool {
    a.x < b.x + b.w && a.x + a.w > b.x && a.y < b.y + b.h && a.y + a.h > b.y
}

impl Rect {
    /// Builds the rectangle from corner and size values.
    pub fn new(x: i64, y: i64, w: i64, h: i64) -> (r: Rect)
        ensures
            r == (Rect { x, y, w, h }),
    {
        Rect { x, y, w, h }
    }

    /// The strict-overlap test on axis-aligned rectangles.
    pub fn intersects(&self, other: &Rect) -> (r: bool)
        requires
            self.in_bounds(),
            other.in_bounds(),
        ensures
            r == rects_intersect(*self, *other),
    {
        self.x < other.x + other.w
            && self.x + self.w > other.x
            && self.y < other.y + other.h
            && self.y + self.h > other.y
    }
}

} // verus!
