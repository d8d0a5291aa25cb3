//! Axis-aligned bounding boxes.

use vstd::prelude::*;

use super::point::Point;
use super::ray::Ray;
use crate::scalar::{in64, sdiv, Scalar};

verus! {

/// One slab update of the running parameter interval: intersect the
/// interval with the parameter range in which the ray is between the
/// planes `mn` and `mx` along one axis. A ray running parallel to the
/// axis (`d == 0`) leaves the interval unchanged when its origin lies
/// between the planes and kills it otherwise.
pub open spec fn slab_axis(mn: int, mx: int, o: int, d: int, acc: Option<(int, int)>) -> Option<
    (int, int),
> {
    match acc {
        None => None,
        Some((t0, t1)) => {
            if d == 0 {
                if o < mn || o > mx {
                    None
                } else {
                    Some((t0, t1))
                }
            } else {
                let tn = sdiv(mn - o, d);
                let tf = sdiv(mx - o, d);
                let lo = if tn <= tf { tn } else { tf };
                let hi = if tn <= tf { tf } else { tn };
                Some(((if t0 >= lo { t0 } else { lo }), (if t1 <= hi { t1 } else { hi })))
            }
        },
    }
}

/// The parameter interval in which a ray is inside the box, or `None`
/// when there is none: the three slab updates applied in turn, kept only
/// when the final interval is non-empty.
pub open spec fn slab_spec(bmin: super::vector::V3, bmax: super::vector::V3, ray: Ray, t_min: int, t_max: int) -> Option<
    (int, int),
> {
    let a = slab_axis(bmin.x, bmax.x, ray.origin@.x, ray.direction@.x, Some((t_min, t_max)));
    let b = slab_axis(bmin.y, bmax.y, ray.origin@.y, ray.direction@.y, a);
    let c = slab_axis(bmin.z, bmax.z, ray.origin@.z, ray.direction@.z, b);
    match c {
        Some((t0, t1)) => if t0 <= t1 {
            Some((t0, t1))
        } else {
            None
        },
        None => None,
    }
}

/// Whether one slab update stays representable: for a non-parallel axis
/// the two plane distances and their quotients by the direction fit.
pub open spec fn slab_axis_ok(mn: int, mx: int, o: int, d: int) -> bool {
    d != 0 ==> in64(mn - o) && in64(mx - o) && in64(sdiv(mn - o, d)) && in64(sdiv(mx - o, d))
}

/// Whether the whole slab test stays representable.
pub open spec fn slab_ok(bmin: super::vector::V3, bmax: super::vector::V3, ray: Ray) -> bool {
    &&& slab_axis_ok(bmin.x, bmax.x, ray.origin@.x, ray.direction@.x)
    &&& slab_axis_ok(bmin.y, bmax.y, ray.origin@.y, ray.direction@.y)
    &&& slab_axis_ok(bmin.z, bmax.z, ray.origin@.z, ray.direction@.z)
}

/// An axis-aligned bounding box, held as its componentwise-minimal and
/// componentwise-maximal corners.
#[derive(Debug, Clone, Copy, PartialEq, Eq, Structural)]
pub struct Bounds {
    min: Point,
    max: Point,
}

/// One slab update, executed: `None` either when the spec update kills
/// the interval or when a value leaves the representation.
fn axis_update(mn: Scalar, mx: Scalar, o: Scalar, d: Scalar, t0: Scalar, t1: Scalar) -> (r:
    Option<(Scalar, Scalar)>)
    ensures
        (r matches Some(t) ==> slab_axis(mn@, mx@, o@, d@, Some((t0@, t1@))) == Some(
            (t.0@, t.1@),
        )),
        slab_axis_ok(mn@, mx@, o@, d@) && r is None ==> slab_axis(mn@, mx@, o@, d@, Some((t0@, t1@)))
            is None,
{
    if d.is_zero() {
        if o.lt(mn) || mx.lt(o) {
            None
        } else {
            Some((t0, t1))
        }
    } else {
        let num_n = match mn.checked_sub(o) {
            Some(v) => v,
            None => { return None; },
        };
        let num_f = match mx.checked_sub(o) {
            Some(v) => v,
            None => { return None; },
        };
        let tn = match num_n.checked_div(d) {
            Some(v) => v,
            None => { return None; },
        };
        let tf = match num_f.checked_div(d) {
            Some(v) => v,
            None => { return None; },
        };
        let lo = tn.min(tf);
        let hi = tn.max(tf);
        Some((t0.max(lo), t1.min(hi)))
    }
}

impl Bounds {
    /// The componentwise-minimal corner.
    pub closed spec fn spec_min(self) -> super::vector::V3 {
        self.min@
    }

    /// The componentwise-maximal corner.
    pub closed spec fn spec_max(self) -> super::vector::V3 {
        self.max@
    }

    /// Create a new bounds from the given corner points, in any order.
    pub fn from_corners(p1: Point, p2: Point) -> (r: Bounds)
        ensures
            r.spec_min().x == if p1@.x <= p2@.x { p1@.x } else { p2@.x },
            r.spec_min().y == if p1@.y <= p2@.y { p1@.y } else { p2@.y },
            r.spec_min().z == if p1@.z <= p2@.z { p1@.z } else { p2@.z },
            r.spec_max().x == if p1@.x >= p2@.x { p1@.x } else { p2@.x },
            r.spec_max().y == if p1@.y >= p2@.y { p1@.y } else { p2@.y },
            r.spec_max().z == if p1@.z >= p2@.z { p1@.z } else { p2@.z },
    {
        Bounds { min: Point::min(p1, p2), max: Point::max(p1, p2) }
    }

    /// Test a ray for intersection against the box by the slab method.
    ///
    /// On success returns the `(t_near, t_far)` parameter values at which
    /// the ray enters and leaves the box, restricted to `[t_min, t_max]`.
    /// `None` when the ray misses the box within that range, and also
    /// when an intermediate value leaves the representation.
    pub fn intersects(&self, ray: &Ray, t_min: Scalar, t_max: Scalar) -> (r: Option<
        (Scalar, Scalar),
    >)
        ensures
            (r matches Some(t) ==> slab_spec(self.spec_min(), self.spec_max(), *ray, t_min@, t_max@)
                == Some((t.0@, t.1@))),
            slab_ok(self.spec_min(), self.spec_max(), *ray) ==> match r {
                Some(t) => slab_spec(self.spec_min(), self.spec_max(), *ray, t_min@, t_max@)
                    == Some((t.0@, t.1@)),
                None => slab_spec(self.spec_min(), self.spec_max(), *ray, t_min@, t_max@) is None,
            },
    {
        let a = match axis_update(self.min.x, self.max.x, ray.origin.x, ray.direction.x, t_min, t_max) {
            Some(v) => v,
            None => { return None; },
        };
        let b = match axis_update(self.min.y, self.max.y, ray.origin.y, ray.direction.y, a.0, a.1) {
            Some(v) => v,
            None => { return None; },
        };
        let c = match axis_update(self.min.z, self.max.z, ray.origin.z, ray.direction.z, b.0, b.1) {
            Some(v) => v,
            None => { return None; },
        };
        if c.1.lt(c.0) {
            None
        } else {
            Some(c)
        }
    }
}

} // verus!
