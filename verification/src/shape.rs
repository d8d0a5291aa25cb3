//! # Shapes and surfaces.
//!
//! A **shape** answers ray intersection queries: the single capability a
//! ray tracer spends most of its time exercising. Two categories matter:
//!
//! * standalone primitives — [`Sphere`], [`Triangle`];
//! * aggregations of primitives, which resolve the *nearest* hit among
//!   their members.
//!
//! Every query takes a parameter interval that is treated as closed at
//! both ends, `t_min <= t <= t_max`, uniformly across all shapes.
//!
//! Three interchangeable aggregate dispatch strategies exist, trading
//! extensibility against call overhead, and all must return identical
//! results (see [`aggregate`]):
//!
//! * a homogeneous vector of one concrete shape type (monomorphized
//!   direct dispatch);
//! * a vector of the closed [`Surface`] sum type (tagged dispatch);
//! * a vector of boxed [`Shape`] objects (open-ended dynamic dispatch).

use vstd::prelude::*;

pub mod aggregate;
pub use self::aggregate::{DirectAggregate, DynamicAggregate};

pub mod sphere;
pub use self::sphere::Sphere;

pub mod surface;
pub use self::surface::Surface;

pub mod triangle;
pub use self::triangle::Triangle;

use crate::geo::point::Point;
use crate::geo::ray::Ray;
use crate::geo::unit::Unit;
use crate::geo::vector::V3;
use crate::scalar::Scalar;

verus! {

/// The mathematical model of a ray-surface hit: the hit parameter, hit
/// point and surface normal as fixed-point counts.
pub struct Hit {
    pub t: int,
    pub point: V3,
    pub norm: V3,
}

/// Encapsulates all information related to a ray-object intersection.
///
/// Always validated: constructing one goes through the fallible
/// normalization of the surface normal, so a degenerate normal makes the
/// intersection fail rather than propagate.
#[derive(Debug, Clone, Copy, PartialEq, Eq, Structural)]
pub struct Intersection {
    pub point: Point,
    pub norm: Unit,
    pub t: Scalar,
}

impl View for Intersection {
    type V = Hit;

    open spec fn view(&self) -> Hit {
        Hit { t: self.t@, point: self.point@, norm: self.norm@ }
    }
}

/// The core trait defining ray-object intersection.
///
/// `hit` is the mathematical answer a shape gives to a ray query over the
/// closed interval `[t_min, t_max]`; `hit_ok` says when every
/// intermediate value of that answer stays representable. The executable
/// queries return exactly the modeled answer whenever `hit_ok` holds.
pub trait Shape {
    /// The modeled outcome of the intersection query.
    spec fn hit(&self, ray: Ray, t_min: int, t_max: int) -> Option<Hit>;

    /// Whether the intersection computation stays representable.
    spec fn hit_ok(&self, ray: Ray, t_min: int, t_max: int) -> bool;

    /// Ray intersection test.
    ///
    /// Check whether the ray intersects this shape within the closed
    /// `[t_min, t_max]` interval, and return the full intersection record
    /// if so.
    fn intersect(&self, ray: &Ray, t_min: Scalar, t_max: Scalar) -> (r: Option<Intersection>)
        ensures
            self.hit_ok(*ray, t_min@, t_max@) ==> match r {
                Some(i) => self.hit(*ray, t_min@, t_max@) == Some(i@),
                None => self.hit(*ray, t_min@, t_max@) is None,
            },
            (r matches Some(i) ==> i.norm.wf()),
    ;

    /// Fast ray intersection test.
    ///
    /// Primarily used for visibility queries: answers whether the ray
    /// intersects without building the full [`Intersection`] record.
    fn intersects(&self, ray: &Ray, t_min: Scalar, t_max: Scalar) -> (r: bool)
        ensures
            self.hit_ok(*ray, t_min@, t_max@) ==> r == (self.hit(*ray, t_min@, t_max@) is Some),
    ;
}

} // verus!
