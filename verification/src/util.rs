//! The plain 2D vector carried by positions, directions and velocities.

use vstd::prelude::*;

verus! {

/// Largest magnitude a coordinate may have. Mirroring negates a direction's
/// horizontal component and reflects a position across the field's vertical
/// midline; this bound keeps both operations far away from the edges of
/// `i64`, while leaving room for any realistic field.
pub const COORD_LIMIT: i64 = 0x1000_0000_0000_0000;

/// A pair of scalar coordinates. Whether a value is a position (an offset
/// from the field origin) or a free vector (a direction or velocity) is
/// decided by where it is used; the two kinds mirror differently.
#[derive(Clone, Copy, PartialEq, Eq, Structural, Debug)]
pub struct Vec2 {
    pub x: i64,
    pub y: i64,
}

impl Vec2 {
    pub fn new(x: i64, y: i64) -> (v: Vec2)
        ensures
            v.x == x,
            v.y == y,
    {
        Vec2 { x, y }
    }

    /// The origin vector.
    pub fn zero() -> (v: Vec2)
        ensures
            v.x == 0,
            v.y == 0,
    {
        Vec2 { x: 0, y: 0 }
    }
}

impl Default for Vec2 {
    fn default() -> (v: Vec2)
        ensures
            v.x == 0,
            v.y == 0,
    {
        Vec2 { x: 0, y: 0 }
    }
}

} // verus!
