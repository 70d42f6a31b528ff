use vstd::prelude::*;

verus! {

/// Largest magnitude of a coordinate that a rectangle handed to the
/// tessellator may hold, so that growing it and walking its corners stays
/// within `i64`.
pub const COORD_LIMIT: i64 = 1_099_511_627_776;

/// A position in integer units; y grows downward.
#[derive(Clone, Copy, Debug, PartialEq, Eq, Structural)]
pub struct Pos2 {
    pub x: i64,
    pub y: i64,
}

/// An axis-aligned rectangle given by its min and max corners.
#[derive(Clone, Copy, Debug, PartialEq, Eq, Structural)]
pub struct Rect {
    pub min: Pos2,
    pub max: Pos2,
}

impl Rect {
    /// Every coordinate has magnitude at most `limit`.
    pub open spec fn within(self, limit: int) -> bool {
        &&& -limit <= self.min.x <= limit
        &&& -limit <= self.min.y <= limit
        &&& -limit <= self.max.x <= limit
        &&& -limit <= self.max.y <= limit
    }

    /// Every coordinate lies within `COORD_LIMIT`.
    pub open spec fn in_range(self) -> bool {
        self.within(COORD_LIMIT as int)
    }

    /// The max corner lies left of or above the min corner.
    pub open spec fn spec_is_negative(self) -> bool {
        self.max.x < self.min.x || self.max.y < self.min.y
    }

    pub open spec fn spec_width(self) -> int {
        self.max.x - self.min.x
    }

    pub open spec fn spec_height(self) -> int {
        self.max.y - self.min.y
    }

    /// Whether `p` lies in the rectangle, borders included.
    pub open spec fn spec_contains(self, p: Pos2) -> bool {
        self.min.x <= p.x <= self.max.x && self.min.y <= p.y <= self.max.y
    }

    /// Whether `p` lies on the border of the rectangle.
    pub open spec fn spec_on_border(self, p: Pos2) -> bool {
        &&& self.spec_contains(p)
        &&& (p.x == self.min.x || p.x == self.max.x || p.y == self.min.y || p.y == self.max.y)
    }

    /// The rectangle grown outward by `d` on every side.
    pub open spec fn spec_expand(self, d: int) -> Rect {
        Rect {
            min: Pos2 { x: (self.min.x - d) as i64, y: (self.min.y - d) as i64 },
            max: Pos2 { x: (self.max.x + d) as i64, y: (self.max.y + d) as i64 },
        }
    }

    pub fn from_min_max(min: Pos2, max: Pos2) -> (r: Rect)
        ensures
            r.min == min,
            r.max == max,
    {
        Rect { min, max }
    }

    pub fn is_negative(&self) -> (b: bool)
        ensures
            b == self.spec_is_negative(),
    {
        self.max.x < self.min.x || self.max.y < self.min.y
    }

    pub fn contains(&self, p: Pos2) -> (b: bool)
        ensures
            b == self.spec_contains(p),
    {
        self.min.x <= p.x && p.x <= self.max.x && self.min.y <= p.y && p.y <= self.max.y
    }

    /// Grows the rectangle outward by `d` on every side.
    pub fn expand(&self, d: i64) -> (r: Rect)
        requires
            self.in_range(),
            0 <= d <= COORD_LIMIT,
        ensures
            r == self.spec_expand(d as int),
            r.within(2 * COORD_LIMIT),
            r.min.x == self.min.x - d,
            r.min.y == self.min.y - d,
            r.max.x == self.max.x + d,
            r.max.y == self.max.y + d,
    {
        Rect {
            min: Pos2 { x: self.min.x - d, y: self.min.y - d },
            max: Pos2 { x: self.max.x + d, y: self.max.y + d },
        }
    }
}

} // verus!
