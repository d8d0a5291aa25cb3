//! Vectors for the homogeneous-coordinate transform kernel.

use vstd::prelude::*;

use super::point3::Point3;
use super::vector::{v3_add, v3_add_ok, v3_cross, v3_cross_ok, v3_dot, v3_dot_ok, v3_neg, v3_neg_ok, v3_scale, v3_scale_ok, v3_sub, v3_sub_ok, V3};
use crate::scalar::{in64, is_isqrt, sdiv, Scalar, SCALE};

verus! {

/// A 3-dimensional vector, the companion of [`Point3`] in the
/// [`Mtx4`](super::Mtx4) transform kernel. Implements the basic algebra
/// of the euclidean **R3** vector space.
#[derive(Debug, Clone, Copy, PartialEq, Eq, Structural)]
pub struct Vec3 {
    pub x: Scalar,
    pub y: Scalar,
    pub z: Scalar,
}

impl View for Vec3 {
    type V = V3;

    open spec fn view(&self) -> V3 {
        V3 { x: self.x@, y: self.y@, z: self.z@ }
    }
}

impl Vec3 {
    /// Construct a new vector with the given components.
    pub fn new(x: Scalar, y: Scalar, z: Scalar) -> (r: Vec3)
        ensures
            r@ == (V3 { x: x@, y: y@, z: z@ }),
    {
        Vec3 { x, y, z }
    }

    /// Construct a new vector with all components equal.
    pub fn splat(n: Scalar) -> (r: Vec3)
        ensures
            r@ == (V3 { x: n@, y: n@, z: n@ }),
    {
        Vec3 { x: n, y: n, z: n }
    }

    /// Construct a new vector that is the component-wise minimum of the two.
    pub fn min(a: Vec3, b: Vec3) -> (r: Vec3)
        ensures
            r.x@ == if a.x@ <= b.x@ { a.x@ } else { b.x@ },
            r.y@ == if a.y@ <= b.y@ { a.y@ } else { b.y@ },
            r.z@ == if a.z@ <= b.z@ { a.z@ } else { b.z@ },
    {
        Vec3 { x: a.x.min(b.x), y: a.y.min(b.y), z: a.z.min(b.z) }
    }

    /// Construct a new vector that is the component-wise maximum of the two.
    pub fn max(a: Vec3, b: Vec3) -> (r: Vec3)
        ensures
            r.x@ == if a.x@ >= b.x@ { a.x@ } else { b.x@ },
            r.y@ == if a.y@ >= b.y@ { a.y@ } else { b.y@ },
            r.z@ == if a.z@ >= b.z@ { a.z@ } else { b.z@ },
    {
        Vec3 { x: a.x.max(b.x), y: a.y.max(b.y), z: a.z.max(b.z) }
    }

    /// Compute the dot product of this vector with another.
    pub fn dot(self, rhs: Vec3) -> (r: Scalar)
        requires
            v3_dot_ok(self@, rhs@),
        ensures
            r@ == v3_dot(self@, rhs@),
    {
        self.x.mul(rhs.x).add(self.y.mul(rhs.y)).add(self.z.mul(rhs.z))
    }

    /// Construct a new vector that is the cross product of this vector
    /// with another.
    pub fn cross(self, rhs: Vec3) -> (r: Vec3)
        requires
            v3_cross_ok(self@, rhs@),
        ensures
            r@ == v3_cross(self@, rhs@),
    {
        Vec3 {
            x: self.y.mul(rhs.z).sub(self.z.mul(rhs.y)),
            y: self.z.mul(rhs.x).sub(self.x.mul(rhs.z)),
            z: self.x.mul(rhs.y).sub(self.y.mul(rhs.x)),
        }
    }

    /// Compute the squared length of the vector. It is faster to compute
    /// than [`Self::len()`], so use it when you can.
    pub fn len_squared(self) -> (r: Scalar)
        requires
            v3_dot_ok(self@, self@),
        ensures
            r@ == v3_dot(self@, self@),
    {
        self.dot(self)
    }

    /// Compute the length of the vector, truncated to the nearest
    /// representable unit.
    pub fn len(self) -> (r: Scalar)
        requires
            v3_dot_ok(self@, self@),
        ensures
            is_isqrt(v3_dot(self@, self@) * (SCALE as int), r@),
    {
        proof {
            super::vector::lemma_v3_dot_self_nonneg(self@);
        }
        self.dot(self).sqrt()
    }

    /// Returns `true` if all components are finite. Exact fixed-point
    /// arithmetic has no infinity or not-a-number state, so this is
    /// always the case.
    pub fn is_finite(self) -> (r: bool)
        ensures
            r,
    {
        true
    }

    /// Returns `true` if any component is not-a-number. Exact fixed-point
    /// arithmetic has no such state, so this is never the case.
    pub fn is_nan(self) -> (r: bool)
        ensures
            !r,
    {
        false
    }

    /// Component-wise negation.
    pub fn neg(self) -> (r: Vec3)
        requires
            v3_neg_ok(self@),
        ensures
            r@ == v3_neg(self@),
    {
        Vec3 { x: self.x.neg(), y: self.y.neg(), z: self.z.neg() }
    }

    /// Exact component-wise sum.
    pub fn add(self, rhs: Vec3) -> (r: Vec3)
        requires
            v3_add_ok(self@, rhs@),
        ensures
            r@ == v3_add(self@, rhs@),
    {
        Vec3 { x: self.x.add(rhs.x), y: self.y.add(rhs.y), z: self.z.add(rhs.z) }
    }

    /// Exact component-wise difference.
    pub fn sub(self, rhs: Vec3) -> (r: Vec3)
        requires
            v3_sub_ok(self@, rhs@),
        ensures
            r@ == v3_sub(self@, rhs@),
    {
        Vec3 { x: self.x.sub(rhs.x), y: self.y.sub(rhs.y), z: self.z.sub(rhs.z) }
    }

    /// Scalar multiplication, truncated per component.
    pub fn mul(self, rhs: Scalar) -> (r: Vec3)
        requires
            v3_scale_ok(self@, rhs@),
        ensures
            r@ == v3_scale(self@, rhs@),
    {
        Vec3 { x: self.x.mul(rhs), y: self.y.mul(rhs), z: self.z.mul(rhs) }
    }

    /// Scalar division, truncated per component.
    pub fn div(self, rhs: Scalar) -> (r: Vec3)
        requires
            rhs@ != 0,
            in64(sdiv(self@.x, rhs@)),
            in64(sdiv(self@.y, rhs@)),
            in64(sdiv(self@.z, rhs@)),
        ensures
            r@.x == sdiv(self@.x, rhs@),
            r@.y == sdiv(self@.y, rhs@),
            r@.z == sdiv(self@.z, rhs@),
    {
        Vec3 { x: self.x.div(rhs), y: self.y.div(rhs), z: self.z.div(rhs) }
    }

    /// The vector from the origin to the point `pt`.
    pub fn from_point(pt: Point3) -> (r: Vec3)
        ensures
            r@ == pt@,
    {
        Vec3 { x: pt.x, y: pt.y, z: pt.z }
    }
}

} // verus!
