//! # Geometric primitives.
//!
//! Basic geometric primitives needed for ray tracing, built on the exact
//! fixed-point [`Scalar`](crate::scalar::Scalar):
//!
//! * [`Vector`] — a free displacement in 3-D space.
//! * [`Point`] — a location in 3-D space; deliberately not closed under
//!   addition with itself.
//! * [`Unit`] — a vector whose length-1 invariant is carried in the type.
//! * [`Matrix`] / [`Mtx4`] — row-major 4x4 homogeneous transforms with
//!   Gauss-Jordan inversion.
//! * [`Ray`] — an origin plus a direction, evaluable at a parameter.
//! * [`Bounds`] — an axis-aligned box with a slab intersection test.
//!
//! The algebra the primitives obey:
//!
//! ```text
//! Point - Point  = Vector
//! Point + Vector = Point
//!
//! Scalar * Vector = Vector
//! Vector / Scalar = Vector
//! Vector + Vector = Vector
//! Vector - Vector = Vector
//!
//! Matrix * Point  = Point
//! Matrix * Vector = Vector
//! Matrix * Matrix = Matrix
//! ```

use vstd::prelude::*;

pub mod bounds;


pub mod coords;
pub use self::coords::Coords;

pub mod matrix;


pub mod mtx4;


pub mod point;
pub use self::point::Point;

pub mod point3;
pub use self::point3::Point3;

pub mod ray;
pub use self::ray::Ray;

pub mod unit;
pub use self::unit::Unit;

pub mod vector;
pub use self::vector::Vector;

pub mod vec3;
pub use self::vec3::Vec3;

pub mod vec4;
pub use self::vec4::Vec4;

verus! {

/// Enum for indexing into a particular component value.
///
/// Sometimes an algorithm is easier to express if a vector or point is
/// treated as a bare array of component values. This enum allows such
/// constructions while keeping bounds checking at compile time.
#[derive(Debug, Clone, Copy, PartialEq, Eq, Structural)]
pub enum Component {
    /// The component along the x-axis.
    X,
    /// The component along the y-axis.
    Y,
    /// The component along the z-axis.
    Z,
}

} // verus!
