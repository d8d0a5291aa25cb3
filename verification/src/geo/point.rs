//! Three-dimensional points.

use vstd::prelude::*;

use super::vector::{v3_add, v3_add_ok, v3_dot, v3_dot_ok, v3_neg, v3_neg_ok, v3_scale, v3_scale_ok, v3_sub, v3_sub_ok, V3, Vector};
use crate::scalar::{is_isqrt, Scalar, SCALE};

verus! {

/// A 3-dimensional point in euclidean space.
///
/// Although points and vectors are both triples of scalars, points support
/// far fewer operations: negation, subtraction of two points (giving the
/// vector from one to the other), translation by a vector, and a few
/// conveniences such as distance and interpolation. Keeping points and
/// vectors as separate types makes intent clear and matters for
/// homogeneous transforms, where the two multiply differently.
#[derive(Debug, Clone, Copy, PartialEq, Eq, Structural)]
pub struct Point {
    pub x: Scalar,
    pub y: Scalar,
    pub z: Scalar,
}

impl View for Point {
    type V = V3;

    open spec fn view(&self) -> V3 {
        V3 { x: self.x@, y: self.y@, z: self.z@ }
    }
}

impl Point {
    /// The origin.
    pub fn origin() -> (r: Point)
        ensures
            r@ == (V3 { x: 0, y: 0, z: 0 }),
    {
        Point { x: Scalar::zero(), y: Scalar::zero(), z: Scalar::zero() }
    }

    /// Construct a new point with the given components.
    pub fn new(x: Scalar, y: Scalar, z: Scalar) -> (r: Point)
        ensures
            r@ == (V3 { x: x@, y: y@, z: z@ }),
    {
        Point { x, y, z }
    }

    /// Construct a new point with all components equal.
    pub fn splat(n: Scalar) -> (r: Point)
        ensures
            r@ == (V3 { x: n@, y: n@, z: n@ }),
    {
        Point { x: n, y: n, z: n }
    }

    /// Construct a new point that is the component-wise minimum of the two.
    pub fn min(a: Point, b: Point) -> (r: Point)
        ensures
            r.x@ == if a.x@ <= b.x@ { a.x@ } else { b.x@ },
            r.y@ == if a.y@ <= b.y@ { a.y@ } else { b.y@ },
            r.z@ == if a.z@ <= b.z@ { a.z@ } else { b.z@ },
    {
        Point { x: a.x.min(b.x), y: a.y.min(b.y), z: a.z.min(b.z) }
    }

    /// Construct a new point that is the component-wise maximum of the two.
    pub fn max(a: Point, b: Point) -> (r: Point)
        ensures
            r.x@ == if a.x@ >= b.x@ { a.x@ } else { b.x@ },
            r.y@ == if a.y@ >= b.y@ { a.y@ } else { b.y@ },
            r.z@ == if a.z@ >= b.z@ { a.z@ } else { b.z@ },
    {
        Point { x: a.x.max(b.x), y: a.y.max(b.y), z: a.z.max(b.z) }
    }

    /// Component-wise negation: flips the point about the origin.
    pub fn neg(self) -> (r: Point)
        requires
            v3_neg_ok(self@),
        ensures
            r@ == v3_neg(self@),
    {
        Point { x: self.x.neg(), y: self.y.neg(), z: self.z.neg() }
    }

    /// Translation: `p + v` is the point `p` moved by the vector `v`.
    pub fn add(self, rhs: Vector) -> (r: Point)
        requires
            v3_add_ok(self@, rhs@),
        ensures
            r@ == v3_add(self@, rhs@),
    {
        Point { x: self.x.add(rhs.x), y: self.y.add(rhs.y), z: self.z.add(rhs.z) }
    }

    /// Subtraction: `p - q` is the vector from `q` to `p`.
    pub fn sub(self, rhs: Point) -> (r: Vector)
        requires
            v3_sub_ok(self@, rhs@),
        ensures
            r@ == v3_sub(self@, rhs@),
    {
        Vector { x: self.x.sub(rhs.x), y: self.y.sub(rhs.y), z: self.z.sub(rhs.z) }
    }

    /// Translation, or `None` when a component does not fit.
    pub fn checked_add(self, rhs: Vector) -> (r: Option<Point>)
        ensures
            match r {
                Some(q) => q@ == v3_add(self@, rhs@),
                None => !v3_add_ok(self@, rhs@),
            },
    {
        match self.to_vector().checked_add(rhs) {
            Some(v) => Some(v.to_point()),
            None => None,
        }
    }

    /// The vector from `rhs` to `self`, or `None` when a component does
    /// not fit.
    pub fn checked_sub(self, rhs: Point) -> (r: Option<Vector>)
        ensures
            match r {
                Some(v) => v@ == v3_sub(self@, rhs@),
                None => !v3_sub_ok(self@, rhs@),
            },
    {
        self.to_vector().checked_sub(rhs.to_vector())
    }

    /// Compute the distance between two points: the truncated length of
    /// the vector between them.
    pub fn distance(self, other: Point) -> (r: Scalar)
        requires
            v3_sub_ok(other@, self@),
            v3_dot_ok(v3_sub(other@, self@), v3_sub(other@, self@)),
        ensures
            is_isqrt(v3_dot(v3_sub(other@, self@), v3_sub(other@, self@)) * (SCALE as int), r@),
    {
        other.sub(self).len()
    }

    /// Linearly interpolate between two points: `self + (other - self) * t`.
    pub fn lerp(self, other: Point, t: Scalar) -> (r: Point)
        requires
            v3_sub_ok(other@, self@),
            v3_scale_ok(v3_sub(other@, self@), t@),
            v3_add_ok(self@, v3_scale(v3_sub(other@, self@), t@)),
        ensures
            r@ == v3_add(self@, v3_scale(v3_sub(other@, self@), t@)),
    {
        self.add(other.sub(self).mul(t))
    }

    /// Compute the point midway between two points.
    pub fn center(self, other: Point) -> (r: Point)
        requires
            v3_sub_ok(other@, self@),
            v3_scale_ok(v3_sub(other@, self@), (SCALE as int) / 2),
            v3_add_ok(self@, v3_scale(v3_sub(other@, self@), (SCALE as int) / 2)),
        ensures
            r@ == v3_add(self@, v3_scale(v3_sub(other@, self@), (SCALE as int) / 2)),
    {
        self.lerp(other, Scalar::from_bits(SCALE / 2))
    }

    /// The vector with the same components.
    pub fn to_vector(self) -> (r: Vector)
        ensures
            r@ == self@,
    {
        Vector { x: self.x, y: self.y, z: self.z }
    }
}

impl Vector {
    /// The point with the same components.
    pub fn to_point(self) -> (r: Point)
        ensures
            r@ == self@,
    {
        Point { x: self.x, y: self.y, z: self.z }
    }
}

} // verus!
