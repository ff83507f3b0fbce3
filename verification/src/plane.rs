//! A plane, as a surface coordinate system.
//!
//! The plane is given by an origin and two direction vectors that span
//! it. The conversions here are exact linear algebra over the model's
//! integer coordinates; conversions that need square roots or rotations
//! are the business of a numeric host around this crate.

use crate::math::{lemma_mul_bound, Point2, Point3, Vector2, Vector3, COORD_LIMIT};
use vstd::prelude::*;

verus! {

/// A plane, spanned by two directions from an origin point.
#[derive(Clone, Copy, Debug, PartialEq, Eq, Structural)]
pub struct Plane {
    /// The origin point of the plane: the point that is the origin of the
    /// two-dimensional surface coordinate system.
    pub origin: Point3,
    /// First direction that defines the plane orientation. Must not be
    /// parallel to `v`.
    pub u: Vector3,
    /// Second direction that defines the plane orientation. Must not be
    /// parallel to `u`.
    pub v: Vector3,
}

impl Plane {
    /// Whether origin and both directions are within the arithmetic
    /// bound.
    pub open spec fn bounded(&self) -> bool {
        self.origin.bounded() && self.u.bounded() && self.v.bounded()
    }

    /// Convert a vector in surface coordinates to model coordinates: the
    /// linear combination of the plane's directions it stands for.
    pub fn vector_surface_to_model(&self, vector: &Vector2) -> (r: Vector3)
        requires
            self.bounded(),
            vector.bounded(),
        ensures
            r.x == vector.u * self.u.x + vector.v * self.v.x,
            r.y == vector.u * self.u.y + vector.v * self.v.y,
            r.z == vector.u * self.u.z + vector.v * self.v.z,
    {
        proof {
            lemma_mul_bound(vector.u as int, self.u.x as int, COORD_LIMIT as int);
            lemma_mul_bound(vector.u as int, self.u.y as int, COORD_LIMIT as int);
            lemma_mul_bound(vector.u as int, self.u.z as int, COORD_LIMIT as int);
            lemma_mul_bound(vector.v as int, self.v.x as int, COORD_LIMIT as int);
            lemma_mul_bound(vector.v as int, self.v.y as int, COORD_LIMIT as int);
            lemma_mul_bound(vector.v as int, self.v.z as int, COORD_LIMIT as int);
        }
        Vector3 {
            x: vector.u * self.u.x + vector.v * self.v.x,
            y: vector.u * self.u.y + vector.v * self.v.y,
            z: vector.u * self.u.z + vector.v * self.v.z,
        }
    }

    /// Convert a point in surface coordinates to model coordinates: the
    /// origin displaced by the point's surface-coordinate vector.
    pub fn point_surface_to_model(&self, point: &Point2) -> (r: Point3)
        requires
            self.bounded(),
            (Vector2 { u: point.u, v: point.v }).bounded(),
        ensures
            r.x == self.origin.x + point.u * self.u.x + point.v * self.v.x,
            r.y == self.origin.y + point.u * self.u.y + point.v * self.v.y,
            r.z == self.origin.z + point.u * self.u.z + point.v * self.v.z,
    {
        let displacement = self.vector_surface_to_model(&Vector2 { u: point.u, v: point.v });
        proof {
            lemma_mul_bound(point.u as int, self.u.x as int, COORD_LIMIT as int);
            lemma_mul_bound(point.u as int, self.u.y as int, COORD_LIMIT as int);
            lemma_mul_bound(point.u as int, self.u.z as int, COORD_LIMIT as int);
            lemma_mul_bound(point.v as int, self.v.x as int, COORD_LIMIT as int);
            lemma_mul_bound(point.v as int, self.v.y as int, COORD_LIMIT as int);
            lemma_mul_bound(point.v as int, self.v.z as int, COORD_LIMIT as int);
        }
        Point3 {
            x: self.origin.x + displacement.x,
            y: self.origin.y + displacement.y,
            z: self.origin.z + displacement.z,
        }
    }
}

} // verus!
