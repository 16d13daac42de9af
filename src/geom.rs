use vstd::prelude::*;

verus! {

/// Fixed-point resolution: one world unit (one pixel of the default camera)
/// is this many steps of a coordinate.
pub const UNITS: i64 = 1000;

/// Largest magnitude a coordinate of the world may take, so that a point plus
/// any bounded offset still fits in an `i64`.
pub const WORLD_LIMIT: i64 = 0x1000_0000_0000_0000;

/// A 2D point or vector, in thousandths of a world unit.
#[derive(Clone, Copy, Debug, PartialEq, Eq, Structural)]
pub struct Point {
    pub x: i64,
    pub y: i64,
}

/// Both coordinates lie within `WORLD_LIMIT` of the origin.
pub open spec fn in_world(p: Point) -> bool {
    -WORLD_LIMIT <= p.x <= WORLD_LIMIT && -WORLD_LIMIT <= p.y <= WORLD_LIMIT
}

/// Squared Euclidean length of `p`, seen as a vector.
pub open spec fn norm_sq(p: Point) -> int {
    p.x * p.x + p.y * p.y
}

/// Squared Euclidean distance between `a` and `b`.
pub open spec fn dist_sq(a: Point, b: Point) -> int {
    (a.x - b.x) * (a.x - b.x) + (a.y - b.y) * (a.y - b.y)
}

impl Point {
    pub fn new(x: i64, y: i64) -> (r: Point)
        ensures
            r == (Point { x, y }),
    {
        Point { x, y }
    }

    pub fn origin() -> (r: Point)
        ensures
            r == (Point { x: 0, y: 0 }),
    {
        Point { x: 0, y: 0 }
    }
}

} // verus!
