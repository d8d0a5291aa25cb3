//! Four-component vectors in homogeneous coordinates.

use vstd::prelude::*;

use super::point3::Point3;
use super::vec3::Vec3;
use crate::scalar::{in64, smul, Scalar, SCALE};

verus! {

/// The mathematical model of a 4-component value.
pub struct V4 {
    pub x: int,
    pub y: int,
    pub z: int,
    pub w: int,
}

/// A homogeneous 4-component vector: `w == 0` marks a direction,
/// `w == 1` marks a position.
#[derive(Debug, Clone, Copy, PartialEq, Eq, Structural)]
pub struct Vec4 {
    pub x: Scalar,
    pub y: Scalar,
    pub z: Scalar,
    pub w: Scalar,
}

impl View for Vec4 {
    type V = V4;

    open spec fn view(&self) -> V4 {
        V4 { x: self.x@, y: self.y@, z: self.z@, w: self.w@ }
    }
}

impl Vec4 {
    /// Construct a new vector with the given components.
    pub fn new(x: Scalar, y: Scalar, z: Scalar, w: Scalar) -> (r: Vec4)
        ensures
            r@ == (V4 { x: x@, y: y@, z: z@, w: w@ }),
    {
        Vec4 { x, y, z, w }
    }

    /// The homogeneous basis vector along the x-axis.
    pub fn x_axis() -> (r: Vec4)
        ensures
            r@ == (V4 { x: SCALE as int, y: 0, z: 0, w: 0 }),
    {
        Vec4 { x: Scalar::one(), y: Scalar::zero(), z: Scalar::zero(), w: Scalar::zero() }
    }

    /// The homogeneous basis vector along the y-axis.
    pub fn y_axis() -> (r: Vec4)
        ensures
            r@ == (V4 { x: 0, y: SCALE as int, z: 0, w: 0 }),
    {
        Vec4 { x: Scalar::zero(), y: Scalar::one(), z: Scalar::zero(), w: Scalar::zero() }
    }

    /// The homogeneous basis vector along the z-axis.
    pub fn z_axis() -> (r: Vec4)
        ensures
            r@ == (V4 { x: 0, y: 0, z: SCALE as int, w: 0 }),
    {
        Vec4 { x: Scalar::zero(), y: Scalar::zero(), z: Scalar::one(), w: Scalar::zero() }
    }

    /// The homogeneous basis vector along the w-axis.
    pub fn w_axis() -> (r: Vec4)
        ensures
            r@ == (V4 { x: 0, y: 0, z: 0, w: SCALE as int }),
    {
        Vec4 { x: Scalar::zero(), y: Scalar::zero(), z: Scalar::zero(), w: Scalar::one() }
    }

    /// Scalar multiplication, truncated per component.
    pub fn mul(self, rhs: Scalar) -> (r: Vec4)
        requires
            in64(smul(self@.x, rhs@)),
            in64(smul(self@.y, rhs@)),
            in64(smul(self@.z, rhs@)),
            in64(smul(self@.w, rhs@)),
        ensures
            r@.x == smul(self@.x, rhs@),
            r@.y == smul(self@.y, rhs@),
            r@.z == smul(self@.z, rhs@),
            r@.w == smul(self@.w, rhs@),
    {
        Vec4 { x: self.x.mul(rhs), y: self.y.mul(rhs), z: self.z.mul(rhs), w: self.w.mul(rhs) }
    }

    /// The direction `v` in homogeneous coordinates: `w == 0`.
    pub fn from_vec3(v: Vec3) -> (r: Vec4)
        ensures
            r@ == (V4 { x: v@.x, y: v@.y, z: v@.z, w: 0 }),
    {
        Vec4 { x: v.x, y: v.y, z: v.z, w: Scalar::zero() }
    }

    /// The position `p` in homogeneous coordinates: `w == 1`.
    pub fn from_point3(p: Point3) -> (r: Vec4)
        ensures
            r@ == (V4 { x: p@.x, y: p@.y, z: p@.z, w: SCALE as int }),
    {
        Vec4 { x: p.x, y: p.y, z: p.z, w: Scalar::one() }
    }
}

} // verus!
