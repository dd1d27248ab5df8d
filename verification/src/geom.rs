//! Points in the editor's 3D space.
//!
//! A coordinate is an `i64` counting tenths of a world unit.

use vstd::prelude::*;

verus! {

/// Coordinate steps per world unit.
pub const UNIT: i64 = 10;

/// A position in the editor's space.
#[derive(Clone, Copy, PartialEq, Eq, Structural, Debug)]
pub struct Point {
    pub x: i64,
    pub y: i64,
    pub z: i64,
}

impl Point {
    pub fn new(x: i64, y: i64, z: i64) -> (r: Point)
        ensures
            r == (Point { x, y, z }),
    {
        Point { x, y, z }
    }

    /// Componentwise `<=`.
    pub open spec fn le(self, other: Point) -> bool {
        self.x <= other.x && self.y <= other.y && self.z <= other.z
    }
}

/// The componentwise minimum of two points.
pub open spec fn point_min(a: Point, b: Point) -> Point {
    Point {
        x: if a.x <= b.x { a.x } else { b.x },
        y: if a.y <= b.y { a.y } else { b.y },
        z: if a.z <= b.z { a.z } else { b.z },
    }
}

/// The componentwise maximum of two points.
pub open spec fn point_max(a: Point, b: Point) -> Point {
    Point {
        x: if a.x <= b.x { b.x } else { a.x },
        y: if a.y <= b.y { b.y } else { a.y },
        z: if a.z <= b.z { b.z } else { a.z },
    }
}

/// Normalising two points always yields an ordered pair.
pub proof fn lemma_min_max_ordered(a: Point, b: Point)
    ensures
        point_min(a, b).le(point_max(a, b)),
{
}

/// The smaller of two integers.
pub open spec fn imin(a: int, b: int) -> int {
    if a <= b {
        a
    } else {
        b
    }
}

/// The larger of two integers.
pub open spec fn imax(a: int, b: int) -> int {
    if a <= b {
        b
    } else {
        a
    }
}

/// Every coordinate of `p` lies within `limit` of zero.
pub open spec fn point_within(p: Point, limit: int) -> bool {
    &&& -limit <= p.x <= limit
    &&& -limit <= p.y <= limit
    &&& -limit <= p.z <= limit
}

} // verus!
