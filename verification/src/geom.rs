//! Plain integer 2D geometry: vectors, axis-aligned rectangles, and the
//! strict-overlap intersection test that drives ball/paddle collisions.

use vstd::prelude::*;

verus! {

/// A 2D point or velocity, in centipixels.
#[derive(Clone, Copy, Debug, PartialEq, Eq, Structural)]
pub struct Vec2 {
    pub x: i64,
    pub y: i64,
}

/// An axis-aligned rectangle given by its top-left corner and its extent.
#[derive(Clone, Copy, Debug, PartialEq, Eq, Structural)]
pub struct Rect {
    pub x: i64,
    pub y: i64,
    pub w: i64,
    pub h: i64,
}

/// Geometry accepts sums up to this magnitude without overflow worries.
pub const COORD_BOUND_GEOM: i64 = 4000000000;

/// Two rectangles overlap when each one starts strictly before the other
/// ends, on both axes; rectangles that merely touch do not intersect.
pub open spec fn spec_rects_intersect(a: Rect, b: Rect) -> bool {
    &&& a.x < b.x + b.w
    &&& b.x < a.x + a.w
    &&& a.y < b.y + b.h
    &&& b.y < a.y + a.h
}

impl Rect {
    /// Strict axis-aligned overlap test.
    pub fn intersects(&self, other: &Rect) -> (r: bool)
        requires
            -COORD_BOUND_GEOM <= self.x + self.w <= COORD_BOUND_GEOM,
            -COORD_BOUND_GEOM <= other.x + other.w <= COORD_BOUND_GEOM,
            -COORD_BOUND_GEOM <= self.y + self.h <= COORD_BOUND_GEOM,
            -COORD_BOUND_GEOM <= other.y + other.h <= COORD_BOUND_GEOM,
        ensures
            r == spec_rects_intersect(*self, *other),
    {
        self.x < other.x + other.w
            && other.x < self.x + self.w
            && self.y < other.y + other.h
            && other.y < self.y + self.h
    }
}

/// Half of a nonnegative length, rounded down.
pub fn half(a: i64) -> (r: i64)
    requires
        0 <= a,
    ensures
        r == a / 2,
{
    a / 2
}

} // verus!
