//! Points and offsets in the plane, in whole world units.

use vstd::prelude::*;

verus! {

/// A point, an offset or a velocity in the plane. `y` grows upwards, so a
/// falling body has a decreasing `y`.
#[derive(Clone, Copy, Debug, PartialEq, Eq, Structural)]
pub struct Vec2 {
    pub x: i64,
    pub y: i64,
}

impl Vec2 {
    /// The point with the given coordinates.
    pub fn new(x: i64, y: i64) -> (point: Vec2)
        ensures
            point == (Vec2 { x, y }),
    {
        Vec2 { x, y }
    }
}

} // verus!
