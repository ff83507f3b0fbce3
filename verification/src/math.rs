//! Plain coordinate types for the geometric model.
//!
//! The kernel core stores and compares coordinates; it does not run
//! floating-point geometry. Positions and directions are therefore held as
//! integer coordinates, which the structural checks can reason about
//! exactly. Functions that combine coordinates arithmetically bound their
//! inputs so that no product or sum can leave the machine integer range.

use vstd::prelude::*;

verus! {

/// The largest coordinate magnitude the arithmetic operations accept.
pub const COORD_LIMIT: i64 = 0x4000_0000;

/// A point in two-dimensional (surface-local) coordinates.
#[derive(Clone, Copy, Debug, PartialEq, Eq, Structural)]
pub struct Point2 {
    pub u: i64,
    pub v: i64,
}

/// A vector in two-dimensional (surface-local) coordinates.
#[derive(Clone, Copy, Debug, PartialEq, Eq, Structural)]
pub struct Vector2 {
    pub u: i64,
    pub v: i64,
}

/// A point in three-dimensional (model) coordinates.
#[derive(Clone, Copy, Debug, PartialEq, Eq, Structural)]
pub struct Point3 {
    pub x: i64,
    pub y: i64,
    pub z: i64,
}

/// A vector in three-dimensional (model) coordinates.
#[derive(Clone, Copy, Debug, PartialEq, Eq, Structural)]
pub struct Vector3 {
    pub x: i64,
    pub y: i64,
    pub z: i64,
}

impl Point2 {
    /// Whether both coordinates are within the arithmetic bound.
    pub open spec fn bounded(&self) -> bool {
        -COORD_LIMIT <= self.u <= COORD_LIMIT && -COORD_LIMIT <= self.v <= COORD_LIMIT
    }

    /// Build a point from its two coordinates.
    pub fn new(u: i64, v: i64) -> (r: Point2)
        ensures
            r == (Point2 { u, v }),
    {
        Point2 { u, v }
    }
}

impl Vector2 {
    /// Whether both coordinates are within the arithmetic bound.
    pub open spec fn bounded(&self) -> bool {
        -COORD_LIMIT <= self.u <= COORD_LIMIT && -COORD_LIMIT <= self.v <= COORD_LIMIT
    }

    /// Build a vector from its two coordinates.
    pub fn new(u: i64, v: i64) -> (r: Vector2)
        ensures
            r == (Vector2 { u, v }),
    {
        Vector2 { u, v }
    }
}

impl Point3 {
    /// Whether all three coordinates are within the arithmetic bound.
    pub open spec fn bounded(&self) -> bool {
        &&& -COORD_LIMIT <= self.x <= COORD_LIMIT
        &&& -COORD_LIMIT <= self.y <= COORD_LIMIT
        &&& -COORD_LIMIT <= self.z <= COORD_LIMIT
    }

    /// Build a point from its three coordinates.
    pub fn new(x: i64, y: i64, z: i64) -> (r: Point3)
        ensures
            r == (Point3 { x, y, z }),
    {
        Point3 { x, y, z }
    }
}

impl Vector3 {
    /// Whether all three coordinates are within the arithmetic bound.
    pub open spec fn bounded(&self) -> bool {
        &&& -COORD_LIMIT <= self.x <= COORD_LIMIT
        &&& -COORD_LIMIT <= self.y <= COORD_LIMIT
        &&& -COORD_LIMIT <= self.z <= COORD_LIMIT
    }

    /// Build a vector from its three coordinates.
    pub fn new(x: i64, y: i64, z: i64) -> (r: Vector3)
        ensures
            r == (Vector3 { x, y, z }),
    {
        Vector3 { x, y, z }
    }

    /// The unit vector along the x axis.
    pub fn unit_x() -> (r: Vector3)
        ensures
            r == (Vector3 { x: 1i64, y: 0i64, z: 0i64 }),
    {
        Vector3 { x: 1, y: 0, z: 0 }
    }

    /// The unit vector along the y axis.
    pub fn unit_y() -> (r: Vector3)
        ensures
            r == (Vector3 { x: 0i64, y: 1i64, z: 0i64 }),
    {
        Vector3 { x: 0, y: 1, z: 0 }
    }

    /// The unit vector along the z axis.
    pub fn unit_z() -> (r: Vector3)
        ensures
            r == (Vector3 { x: 0i64, y: 0i64, z: 1i64 }),
    {
        Vector3 { x: 0, y: 0, z: 1 }
    }
}


/// The product of two values bounded by `l` in magnitude is bounded by
/// `l * l`.
pub proof fn lemma_mul_bound(x: int, y: int, l: int)
    by (nonlinear_arith)
    requires
        0 <= l,
        -l <= x <= l,
        -l <= y <= l,
    ensures
        -(l * l) <= x * y <= l * l,
{
}

} // verus!
