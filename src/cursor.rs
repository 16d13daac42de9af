use vstd::prelude::*;
use crate::geom::Point;

verus! {

/// The cursor's latest position in world coordinates, shared by the frame's
/// steps. Only the cursor tracker writes it.
#[derive(Clone, Copy, Debug, PartialEq, Eq, Structural)]
pub struct MyWorldCoords(pub Point);

impl MyWorldCoords {
    /// The value before any cursor was seen: the origin.
    pub fn new() -> (r: MyWorldCoords)
        ensures
            r == MyWorldCoords(Point { x: 0, y: 0 }),
    {
        MyWorldCoords(Point::origin())
    }
}

/// Records the cursor's world position for this frame. `world_position` is
/// the camera's unprojection of the cursor pixel, or `None` when the cursor
/// is outside the window; then the last known position is kept.
pub fn update_cursor(coords: &mut MyWorldCoords, world_position: Option<Point>)
    ensures
        world_position matches Some(p) ==> *final(coords) == MyWorldCoords(p),
        world_position is None ==> *final(coords) == *old(coords),
{
    if let Some(p) = world_position {
        *coords = MyWorldCoords(p);
    }
}

} // verus!
