//! Plain spatial data shared by every simulated entity: a 2D integer
//! vector and a transform (position plus uniform scale).
//!
//! All lengths are in integer world units; scales are stored in tenths of
//! a unit so that fractional sprite scales stay representable.

use vstd::prelude::*;

verus! {

#[derive(Clone, Copy, PartialEq, Eq, Structural, Debug)]
pub struct Vec2 {
    pub x: i64,
    pub y: i64,
}

impl Vec2 {
    pub fn zero() -> (v: Self)
        ensures
            v.x == 0,
            v.y == 0,
    {
        Vec2 { x: 0, y: 0 }
    }
}

#[derive(Clone, Copy, PartialEq, Eq, Structural, Debug)]
pub struct Transform {
    /// World position of the entity's centre.
    pub position: Vec2,
    /// Uniform scale, in tenths of a unit.
    pub scale: i64,
}

} // verus!
