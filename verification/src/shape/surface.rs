//! The closed sum type over the primitive shape kinds.

use vstd::prelude::*;

use super::sphere::Sphere;
use super::triangle::Triangle;
use super::{Hit, Intersection, Shape};
use crate::geo::ray::Ray;
use crate::scalar::Scalar;

verus! {

/// A surface that supports ray-object intersection.
///
/// A closed sum over the shape kinds known at compile time, resolved by
/// direct pattern matching: the fast, fixed counterpart of the
/// open-ended dynamically-dispatched aggregate (see
/// [`aggregate`](super::aggregate)).
#[derive(Debug, Clone, Copy, PartialEq)]
pub enum Surface {
    Sphere(Sphere),
    Triangle(Triangle),
}

impl Surface {
    /// The surface for a sphere primitive.
    pub fn from_sphere(s: Sphere) -> (r: Surface)
        ensures
            r == Surface::Sphere(s),
    {
        Surface::Sphere(s)
    }

    /// The surface for a triangle primitive.
    pub fn from_triangle(t: Triangle) -> (r: Surface)
        ensures
            r == Surface::Triangle(t),
    {
        Surface::Triangle(t)
    }
}

impl Shape for Surface {
    open spec fn hit(&self, ray: Ray, t_min: int, t_max: int) -> Option<Hit> {
        match self {
            Surface::Sphere(s) => s.hit(ray, t_min, t_max),
            Surface::Triangle(t) => t.hit(ray, t_min, t_max),
        }
    }

    open spec fn hit_ok(&self, ray: Ray, t_min: int, t_max: int) -> bool {
        match self {
            Surface::Sphere(s) => s.hit_ok(ray, t_min, t_max),
            Surface::Triangle(t) => t.hit_ok(ray, t_min, t_max),
        }
    }

    fn intersect(&self, ray: &Ray, t_min: Scalar, t_max: Scalar) -> (r: Option<Intersection>) {
        match self {
            Surface::Sphere(s) => s.intersect(ray, t_min, t_max),
            Surface::Triangle(t) => t.intersect(ray, t_min, t_max),
        }
    }

    fn intersects(&self, ray: &Ray, t_min: Scalar, t_max: Scalar) -> (r: bool) {
        match self {
            Surface::Sphere(s) => s.intersects(ray, t_min, t_max),
            Surface::Triangle(t) => t.intersects(ray, t_min, t_max),
        }
    }
}

} // verus!
