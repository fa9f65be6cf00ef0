//! 2D fixed-point geometry for the horizontal play plane. Coordinates carry
//! three fractional digits (one game unit is 1000 coordinate steps). All
//! proximity reasoning is done on squared lengths, so no roots are needed.

use vstd::prelude::*;

verus! {

/// Largest coordinate magnitude of any entity position. Keeps squared
/// lengths of position differences inside the `i64` range.
pub const POS_LIMIT: i64 = 1_000_000_000;

/// Largest coordinate magnitude of a facing (direction) vector. A unit
/// facing has length 1000; the slack tolerates host-side rounding.
pub const FACING_LIMIT: i64 = 2_000;

#[derive(Clone, Copy, Debug, PartialEq, Eq, Structural)]
pub struct Vec2 {
    pub x: i64,
    pub y: i64,
}

/// An entity position: within the play-field coordinate bound.
pub open spec fn in_bounds(v: Vec2) -> bool {
    -POS_LIMIT <= v.x <= POS_LIMIT && -POS_LIMIT <= v.y <= POS_LIMIT
}

/// A difference of two entity positions.
pub open spec fn delta_bounds(v: Vec2) -> bool {
    -2 * POS_LIMIT <= v.x <= 2 * POS_LIMIT && -2 * POS_LIMIT <= v.y <= 2 * POS_LIMIT
}

/// A facing direction handed in by the host (nominally of length 1000).
pub open spec fn facing_bounds(v: Vec2) -> bool {
    -FACING_LIMIT <= v.x <= FACING_LIMIT && -FACING_LIMIT <= v.y <= FACING_LIMIT
}

pub open spec fn sub_spec(a: Vec2, b: Vec2) -> Vec2 {
    Vec2 { x: (a.x - b.x) as i64, y: (a.y - b.y) as i64 }
}

pub open spec fn neg_spec(a: Vec2) -> Vec2 {
    Vec2 { x: (-a.x) as i64, y: (-a.y) as i64 }
}

/// Squared length of a position difference.
pub open spec fn norm_sq_spec(v: Vec2) -> int {
    v.x * v.x + v.y * v.y
}

/// Squared distance between two positions.
pub open spec fn dist_sq_spec(a: Vec2, b: Vec2) -> int {
    norm_sq_spec(sub_spec(a, b))
}

impl Vec2 {
    pub fn sub(self, other: Vec2) -> (r: Vec2)
        requires
            in_bounds(self),
            in_bounds(other),
        ensures
            r == sub_spec(self, other),
            delta_bounds(r),
    {
        Vec2 { x: self.x - other.x, y: self.y - other.y }
    }

    pub fn neg(self) -> (r: Vec2)
        requires
            delta_bounds(self),
        ensures
            r == neg_spec(self),
            delta_bounds(r),
    {
        Vec2 { x: -self.x, y: -self.y }
    }

    pub fn norm_sq(self) -> (r: i64)
        requires
            delta_bounds(self),
        ensures
            r == norm_sq_spec(self),
            r >= 0,
    {
        proof {
            assert(self.x * self.x <= 4_000_000_000_000_000_000
                && self.x * self.x >= 0) by (nonlinear_arith)
                requires
                    -2_000_000_000 <= self.x <= 2_000_000_000,
            ;
            assert(self.y * self.y <= 4_000_000_000_000_000_000
                && self.y * self.y >= 0) by (nonlinear_arith)
                requires
                    -2_000_000_000 <= self.y <= 2_000_000_000,
            ;
        }
        self.x * self.x + self.y * self.y
    }
}

/// Squared distance between two entity positions.
pub fn dist_sq(a: Vec2, b: Vec2) -> (r: i64)
    requires
        in_bounds(a),
        in_bounds(b),
    ensures
        r == dist_sq_spec(a, b),
        r >= 0,
{
    a.sub(b).norm_sq()
}

} // verus!
