//! Geometric rays.

use vstd::prelude::*;

use super::point::Point;
use super::vector::{v3_add, v3_add_ok, v3_scale, v3_scale_ok, V3, Vector};
use crate::scalar::Scalar;

verus! {

/// A geometric ray: an origin plus a direction, not required to be of
/// unit length. The point at parameter `t` is `origin + t * direction`.
#[derive(Debug, Clone, Copy, PartialEq, Eq, Structural)]
pub struct Ray {
    pub origin: Point,
    pub direction: Vector,
}

/// The model of the point a ray reaches at parameter `t`.
pub open spec fn ray_at(origin: V3, direction: V3, t: int) -> V3 {
    v3_add(origin, v3_scale(direction, t))
}

/// Whether evaluating the ray at `t` stays representable.
pub open spec fn ray_at_ok(origin: V3, direction: V3, t: int) -> bool {
    v3_scale_ok(direction, t) && v3_add_ok(origin, v3_scale(direction, t))
}

impl Ray {
    /// Construct a new ray with the given origin and direction.
    pub fn new(origin: Point, direction: Vector) -> (r: Ray)
        ensures
            r.origin@ == origin@,
            r.direction@ == direction@,
    {
        Ray { origin, direction }
    }

    /// Evaluate the ray at parameter `t`.
    pub fn at(&self, t: Scalar) -> (r: Point)
        requires
            ray_at_ok(self.origin@, self.direction@, t@),
        ensures
            r@ == ray_at(self.origin@, self.direction@, t@),
    {
        self.origin.add(self.direction.mul(t))
    }

    /// The ray's direction.
    pub fn direction(&self) -> (r: Vector)
        ensures
            r@ == self.direction@,
    {
        self.direction
    }

    /// The ray's origin.
    pub fn origin(&self) -> (r: Point)
        ensures
            r@ == self.origin@,
    {
        self.origin
    }
}

} // verus!
