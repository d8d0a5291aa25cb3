//! Triangles.

use vstd::prelude::*;

use super::{Hit, Intersection, Shape};
use crate::geo::point::Point;
use crate::geo::ray::{ray_at, ray_at_ok, Ray};
use crate::geo::unit::{normalized, try_from_ok, Unit, UNIT_TOLERANCE};
use crate::geo::vector::{v3_cross, v3_cross_ok, v3_dot, v3_dot_ok, v3_sub, v3_sub_ok, V3, Vector};
use crate::scalar::{iabs, in64, isqrt_v, sdiv, Scalar, SCALE};

verus! {

/// The ray parameter at which a ray meets the triangle `(v0, v1, v2)`,
/// by the determinant formulation over the two triangle edges: the hit
/// must have barycentric coordinates `u, v` inside the triangle —
/// `0 <= u`, `0 <= v`, `u + v <= 1` — and a parameter inside the closed
/// query interval. `None` for a ray parallel to the triangle's plane
/// (zero determinant) and for misses.
pub open spec fn triangle_param(v0: V3, v1: V3, v2: V3, ray: Ray, t_min: int, t_max: int) -> Option<
    int,
> {
    let o = ray.origin@;
    let d = ray.direction@;
    let e1 = v3_sub(v1, v0);
    let e2 = v3_sub(v2, v0);
    let p = v3_cross(d, e2);
    let det = v3_dot(e1, p);
    if det == 0 {
        None
    } else {
        let tv = v3_sub(o, v0);
        let u = sdiv(v3_dot(tv, p), det);
        if u < 0 || u > SCALE {
            None
        } else {
            let q = v3_cross(tv, e1);
            let v = sdiv(v3_dot(d, q), det);
            if v < 0 || u + v > SCALE {
                None
            } else {
                let t = sdiv(v3_dot(e2, q), det);
                if t < t_min || t > t_max {
                    None
                } else {
                    Some(t)
                }
            }
        }
    }
}

/// The modeled outcome of a ray-triangle intersection query: the hit
/// parameter from [`triangle_param`], the point the ray reaches there,
/// and the normalized cross product of the triangle's edges as the
/// normal. `None` also when that normal cannot be normalized within
/// tolerance — a degenerate triangle.
pub open spec fn triangle_hit(v0: V3, v1: V3, v2: V3, ray: Ray, t_min: int, t_max: int) -> Option<
    Hit,
> {
    match triangle_param(v0, v1, v2, ray, t_min, t_max) {
        None => None,
        Some(t) => {
            let pt = ray_at(ray.origin@, ray.direction@, t);
            let nr = v3_cross(v3_sub(v1, v0), v3_sub(v2, v0));
            let len = isqrt_v(v3_dot(nr, nr) * (SCALE as int));
            let n = normalized(nr);
            if len == 0 || iabs(v3_dot(n, n) - SCALE) > UNIT_TOLERANCE {
                None
            } else {
                Some(Hit { t, point: pt, norm: n })
            }
        },
    }
}

/// Whether the whole triangle intersection computation stays
/// representable, every intermediate step included.
pub open spec fn triangle_hit_ok(v0: V3, v1: V3, v2: V3, ray: Ray, t_min: int, t_max: int) -> bool {
    let o = ray.origin@;
    let d = ray.direction@;
    let e1 = v3_sub(v1, v0);
    let e2 = v3_sub(v2, v0);
    let p = v3_cross(d, e2);
    let det = v3_dot(e1, p);
    let tv = v3_sub(o, v0);
    let u = sdiv(v3_dot(tv, p), det);
    let q = v3_cross(tv, e1);
    let v = sdiv(v3_dot(d, q), det);
    let sel = triangle_param(v0, v1, v2, ray, t_min, t_max);
    &&& v3_sub_ok(v1, v0)
    &&& v3_sub_ok(v2, v0)
    &&& v3_cross_ok(d, e2)
    &&& v3_dot_ok(e1, p)
    &&& v3_sub_ok(o, v0)
    &&& v3_dot_ok(tv, p)
    &&& v3_cross_ok(tv, e1)
    &&& v3_dot_ok(d, q)
    &&& v3_dot_ok(e2, q)
    &&& (det != 0 ==> in64(u) && in64(v) && in64(u + v) && in64(sdiv(v3_dot(e2, q), det)))
    &&& (sel matches Some(t) ==> ray_at_ok(o, d, t) && v3_cross_ok(e1, e2) && try_from_ok(
        v3_cross(e1, e2),
    ))
}

/// A triangle, held as its three corner points.
#[derive(Debug, Clone, Copy, PartialEq, Eq, Structural)]
pub struct Triangle {
    v0: Point,
    v1: Point,
    v2: Point,
}

impl Triangle {
    /// The first corner.
    pub closed spec fn spec_v0(self) -> V3 {
        self.v0@
    }

    /// The second corner.
    pub closed spec fn spec_v1(self) -> V3 {
        self.v1@
    }

    /// The third corner.
    pub closed spec fn spec_v2(self) -> V3 {
        self.v2@
    }

    /// A triangle over the given corners. The corners may be degenerate
    /// (collinear or coincident); such a triangle reports no
    /// intersections, because its normal cannot be normalized.
    pub fn new(v0: Point, v1: Point, v2: Point) -> (r: Triangle)
        ensures
            r.spec_v0() == v0@,
            r.spec_v1() == v1@,
            r.spec_v2() == v2@,
    {
        Triangle { v0, v1, v2 }
    }
}

impl Shape for Triangle {
    open spec fn hit(&self, ray: Ray, t_min: int, t_max: int) -> Option<Hit> {
        triangle_hit(self.spec_v0(), self.spec_v1(), self.spec_v2(), ray, t_min, t_max)
    }

    open spec fn hit_ok(&self, ray: Ray, t_min: int, t_max: int) -> bool {
        triangle_hit_ok(self.spec_v0(), self.spec_v1(), self.spec_v2(), ray, t_min, t_max)
    }

    fn intersect(&self, ray: &Ray, t_min: Scalar, t_max: Scalar) -> (r: Option<Intersection>) {
        let e1 = match self.v1.checked_sub(self.v0) {
            Some(v) => v,
            None => { return None; },
        };
        let e2 = match self.v2.checked_sub(self.v0) {
            Some(v) => v,
            None => { return None; },
        };
        let p = match ray.direction.checked_cross(e2) {
            Some(v) => v,
            None => { return None; },
        };
        let det = match e1.checked_dot(p) {
            Some(v) => v,
            None => { return None; },
        };
        if det.is_zero() {
            return None;
        }
        let tv = match ray.origin.checked_sub(self.v0) {
            Some(v) => v,
            None => { return None; },
        };
        let tvp = match tv.checked_dot(p) {
            Some(v) => v,
            None => { return None; },
        };
        let u = match tvp.checked_div(det) {
            Some(v) => v,
            None => { return None; },
        };
        let zero = Scalar::zero();
        let one = Scalar::one();
        if u.lt(zero) || one.lt(u) {
            return None;
        }
        let q = match tv.checked_cross(e1) {
            Some(v) => v,
            None => { return None; },
        };
        let dq = match ray.direction.checked_dot(q) {
            Some(v) => v,
            None => { return None; },
        };
        let v = match dq.checked_div(det) {
            Some(v) => v,
            None => { return None; },
        };
        let uv = match u.checked_add(v) {
            Some(v) => v,
            None => { return None; },
        };
        if v.lt(zero) || one.lt(uv) {
            return None;
        }
        let e2q = match e2.checked_dot(q) {
            Some(v) => v,
            None => { return None; },
        };
        let t = match e2q.checked_div(det) {
            Some(v) => v,
            None => { return None; },
        };
        if t.lt(t_min) || t_max.lt(t) {
            return None;
        }
        let moved = match ray.direction.checked_mul(t) {
            Some(v) => v,
            None => { return None; },
        };
        let point = match ray.origin.checked_add(moved) {
            Some(p) => p,
            None => { return None; },
        };
        let nr = match e1.checked_cross(e2) {
            Some(v) => v,
            None => { return None; },
        };
        let norm = match Unit::try_from(nr) {
            Some(u) => u,
            None => { return None; },
        };
        Some(Intersection { point, norm, t })
    }

    fn intersects(&self, ray: &Ray, t_min: Scalar, t_max: Scalar) -> (r: bool) {
        self.intersect(ray, t_min, t_max).is_some()
    }
}

} // verus!
