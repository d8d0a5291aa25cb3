//! Points for the homogeneous-coordinate transform kernel.

use vstd::prelude::*;

use super::vector::V3;
use crate::scalar::Scalar;

verus! {

/// A 3-dimensional point, the companion of [`Vec3`](super::Vec3) in the
/// [`Mtx4`](super::Mtx4) transform kernel. Under a homogeneous transform
/// a point picks up the translation column, unlike a vector.
#[derive(Debug, Clone, Copy, PartialEq, Eq, Structural)]
pub struct Point3 {
    pub x: Scalar,
    pub y: Scalar,
    pub z: Scalar,
}

impl View for Point3 {
    type V = V3;

    open spec fn view(&self) -> V3 {
        V3 { x: self.x@, y: self.y@, z: self.z@ }
    }
}

impl Point3 {
    /// Construct a new point with the given components.
    pub fn new(x: Scalar, y: Scalar, z: Scalar) -> (r: Point3)
        ensures
            r@ == (V3 { x: x@, y: y@, z: z@ }),
    {
        Point3 { x, y, z }
    }

    /// Construct a new point with all components equal.
    pub fn splat(n: Scalar) -> (r: Point3)
        ensures
            r@ == (V3 { x: n@, y: n@, z: n@ }),
    {
        Point3 { x: n, y: n, z: n }
    }
}

} // verus!
