//! Geometric spheres.

use vstd::prelude::*;

use super::{Hit, Intersection, Shape};
use crate::geo::point::Point;
use crate::geo::ray::{ray_at, ray_at_ok, Ray};
use crate::geo::unit::{normalized, try_from_ok, Unit, UNIT_TOLERANCE};
use crate::geo::vector::{v3_dot, v3_dot_ok, v3_sub, v3_sub_ok, V3};
use crate::scalar::{iabs, in64, isqrt_v, lemma_isqrt_unique, sdiv, smul, Scalar, SCALE};

verus! {

/// The fixed-point count representing one half.
pub const HALF_BITS: i64 = 0x8000_0000;

/// The quadratic `a*t^2 + b*t + c = 0` whose roots are the ray
/// parameters at which `|ray.at(t) - center|^2 == radius^2`.
pub open spec fn sphere_quadratic(center: V3, radius: int, ray: Ray) -> (int, int, int) {
    let l = v3_sub(ray.origin@, center);
    let a = v3_dot(ray.direction@, ray.direction@);
    let b = 2 * v3_dot(l, ray.direction@);
    let c = v3_dot(l, l) - smul(radius, radius);
    (a, b, c)
}

/// The ordered roots of the quadratic, selected the numerically stable
/// way: when two roots exist, `q = -(b ± sqrt(discriminant)) / 2` with
/// the sign matching `b`'s avoids catastrophic cancellation, and the
/// roots are `q / a` and `c / q`. `None` when the discriminant is
/// negative, and for the degenerate quadratics (`a == 0`, or `q == 0`)
/// whose divisions are undefined.
pub open spec fn sphere_roots(a: int, b: int, c: int) -> Option<(int, int)> {
    let discr = smul(b, b) - smul(4 * a, c);
    if discr < 0 || a == 0 {
        None
    } else if discr == 0 {
        let root = sdiv(smul(-b, HALF_BITS as int), a);
        Some((root, root))
    } else {
        let sq = isqrt_v(discr * (SCALE as int));
        let q = if b > 0 {
            -smul(b + sq, HALF_BITS as int)
        } else {
            -smul(b - sq, HALF_BITS as int)
        };
        if q == 0 {
            None
        } else {
            let x0 = sdiv(q, a);
            let x1 = sdiv(c, q);
            if x0 <= x1 {
                Some((x0, x1))
            } else {
                Some((x1, x0))
            }
        }
    }
}

/// The smaller root inside the closed interval `[t_min, t_max]` wins;
/// the larger is taken only when the smaller is out of range.
pub open spec fn select_root(roots: Option<(int, int)>, t_min: int, t_max: int) -> Option<int> {
    match roots {
        None => None,
        Some((lo, hi)) => if t_min <= lo && lo <= t_max {
            Some(lo)
        } else if t_min <= hi && hi <= t_max {
            Some(hi)
        } else {
            None
        },
    }
}

/// The modeled outcome of a ray-sphere intersection query: the nearest
/// in-range root, the hit point the ray reaches there, and the outward
/// normal — the normalized vector from the center to the hit point.
/// `None` when there is no in-range root and when the normal cannot be
/// normalized within tolerance.
pub open spec fn sphere_hit(center: V3, radius: int, ray: Ray, t_min: int, t_max: int) -> Option<
    Hit,
> {
    let q3 = sphere_quadratic(center, radius, ray);
    match select_root(sphere_roots(q3.0, q3.1, q3.2), t_min, t_max) {
        None => None,
        Some(t) => {
            let p = ray_at(ray.origin@, ray.direction@, t);
            let pc = v3_sub(p, center);
            let len = isqrt_v(v3_dot(pc, pc) * (SCALE as int));
            let n = normalized(pc);
            if len == 0 || iabs(v3_dot(n, n) - SCALE) > UNIT_TOLERANCE {
                None
            } else {
                Some(Hit { t, point: p, norm: n })
            }
        },
    }
}

/// Whether the whole sphere intersection computation stays
/// representable, every intermediate step included.
pub open spec fn sphere_hit_ok(center: V3, radius: int, ray: Ray, t_min: int, t_max: int) -> bool {
    let o = ray.origin@;
    let d = ray.direction@;
    let l = v3_sub(o, center);
    let a = v3_dot(d, d);
    let b = 2 * v3_dot(l, d);
    let c = v3_dot(l, l) - smul(radius, radius);
    let discr = smul(b, b) - smul(4 * a, c);
    let sq = isqrt_v(discr * (SCALE as int));
    let q = if b > 0 {
        -smul(b + sq, HALF_BITS as int)
    } else {
        -smul(b - sq, HALF_BITS as int)
    };
    let sel = select_root(sphere_roots(a, b, c), t_min, t_max);
    &&& v3_sub_ok(o, center)
    &&& v3_dot_ok(d, d)
    &&& v3_dot_ok(l, d)
    &&& in64(v3_dot(l, d) + v3_dot(l, d))
    &&& v3_dot_ok(l, l)
    &&& in64(smul(radius, radius))
    &&& in64(c)
    &&& in64(smul(b, b))
    &&& in64(a + a)
    &&& in64(4 * a)
    &&& in64(smul(4 * a, c))
    &&& in64(discr)
    &&& (discr == 0 ==> b != i64::MIN && in64(smul(-b, HALF_BITS as int)) && (a != 0 ==> in64(
        sdiv(smul(-b, HALF_BITS as int), a),
    )))
    &&& (discr > 0 ==> in64(b + sq) && in64(b - sq) && in64(smul(b + sq, HALF_BITS as int))
        && in64(smul(b - sq, HALF_BITS as int)) && smul(b + sq, HALF_BITS as int) != i64::MIN
        && smul(b - sq, HALF_BITS as int) != i64::MIN)
    &&& (discr > 0 && a != 0 && q != 0 ==> in64(sdiv(q, a)) && in64(sdiv(c, q)))
    &&& (sel matches Some(t) ==> ray_at_ok(o, d, t) && v3_sub_ok(ray_at(o, d, t), center)
        && try_from_ok(v3_sub(ray_at(o, d, t), center)))
}

/// A geometric sphere, held as its center and radius.
#[derive(Debug, Clone, Copy, PartialEq, Eq, Structural)]
pub struct Sphere {
    center: Point,
    radius: Scalar,
}

impl Sphere {
    /// The center of the sphere.
    pub closed spec fn spec_center(self) -> V3 {
        self.center@
    }

    /// The radius of the sphere.
    pub closed spec fn spec_radius(self) -> int {
        self.radius@
    }

    /// Creates a new sphere with the given center and radius.
    ///
    /// Fails when the radius is not positive, rather than building a
    /// degenerate sphere.
    pub fn new(center: Point, radius: Scalar) -> (r: Option<Sphere>)
        ensures
            match r {
                Some(s) => radius@ > 0 && s.spec_center() == center@ && s.spec_radius() == radius@,
                None => radius@ <= 0,
            },
    {
        if Scalar::zero().lt(radius) {
            Some(Sphere { center, radius })
        } else {
            None
        }
    }

    /// The nearest root of the sphere's quadratic that lies inside the
    /// closed interval `[t_min, t_max]`, or `None` when there is none.
    fn nearest_intersection(&self, ray: &Ray, t_min: Scalar, t_max: Scalar) -> (r: Option<Scalar>)
        ensures
            sphere_hit_ok(self.spec_center(), self.spec_radius(), *ray, t_min@, t_max@) ==> {
                let q3 = sphere_quadratic(self.spec_center(), self.spec_radius(), *ray);
                let sel = select_root(sphere_roots(q3.0, q3.1, q3.2), t_min@, t_max@);
                match r {
                    Some(t) => sel == Some(t@),
                    None => sel is None,
                }
            },
    {
        let zero = Scalar::zero();
        let half = Scalar::from_bits(HALF_BITS);
        let l = match ray.origin.checked_sub(self.center) {
            Some(v) => v,
            None => { return None; },
        };
        let a = match ray.direction.checked_dot(ray.direction) {
            Some(v) => v,
            None => { return None; },
        };
        let ld = match l.checked_dot(ray.direction) {
            Some(v) => v,
            None => { return None; },
        };
        let b = match ld.checked_add(ld) {
            Some(v) => v,
            None => { return None; },
        };
        let ll = match l.checked_dot(l) {
            Some(v) => v,
            None => { return None; },
        };
        let rr = match self.radius.checked_mul(self.radius) {
            Some(v) => v,
            None => { return None; },
        };
        let c = match ll.checked_sub(rr) {
            Some(v) => v,
            None => { return None; },
        };
        let bb = match b.checked_mul(b) {
            Some(v) => v,
            None => { return None; },
        };
        let a2 = match a.checked_add(a) {
            Some(v) => v,
            None => { return None; },
        };
        let a4 = match a2.checked_add(a2) {
            Some(v) => v,
            None => { return None; },
        };
        let ac = match a4.checked_mul(c) {
            Some(v) => v,
            None => { return None; },
        };
        let discr = match bb.checked_sub(ac) {
            Some(v) => v,
            None => { return None; },
        };
        let roots: (Scalar, Scalar);
        if discr.lt(zero) {
            return None;
        } else if discr.is_zero() {
            let mb = match b.checked_neg() {
                Some(v) => v,
                None => { return None; },
            };
            let h = match mb.checked_mul(half) {
                Some(v) => v,
                None => { return None; },
            };
            let root = match h.checked_div(a) {
                Some(v) => v,
                None => { return None; },
            };
            roots = (root, root);
        } else {
            let sq = discr.sqrt();
            proof {
                lemma_isqrt_unique(discr@ * (SCALE as int), sq@);
            }
            let s1 = if zero.lt(b) {
                match b.checked_add(sq) {
                    Some(v) => v,
                    None => { return None; },
                }
            } else {
                match b.checked_sub(sq) {
                    Some(v) => v,
                    None => { return None; },
                }
            };
            let m = match s1.checked_mul(half) {
                Some(v) => v,
                None => { return None; },
            };
            let q = match m.checked_neg() {
                Some(v) => v,
                None => { return None; },
            };
            if q.is_zero() {
                return None;
            }
            let x0 = match q.checked_div(a) {
                Some(v) => v,
                None => { return None; },
            };
            let x1 = match c.checked_div(q) {
                Some(v) => v,
                None => { return None; },
            };
            if x1.lt(x0) {
                roots = (x1, x0);
            } else {
                roots = (x0, x1);
            }
        }
        if t_min.le(roots.0) && roots.0.le(t_max) {
            Some(roots.0)
        } else if t_min.le(roots.1) && roots.1.le(t_max) {
            Some(roots.1)
        } else {
            None
        }
    }
}

impl Shape for Sphere {
    open spec fn hit(&self, ray: Ray, t_min: int, t_max: int) -> Option<Hit> {
        sphere_hit(self.spec_center(), self.spec_radius(), ray, t_min, t_max)
    }

    open spec fn hit_ok(&self, ray: Ray, t_min: int, t_max: int) -> bool {
        sphere_hit_ok(self.spec_center(), self.spec_radius(), ray, t_min, t_max)
    }

    fn intersect(&self, ray: &Ray, t_min: Scalar, t_max: Scalar) -> (r: Option<Intersection>) {
        let t = match self.nearest_intersection(ray, t_min, t_max) {
            Some(t) => t,
            None => { return None; },
        };
        let moved = match ray.direction.checked_mul(t) {
            Some(v) => v,
            None => { return None; },
        };
        let point = match ray.origin.checked_add(moved) {
            Some(p) => p,
            None => { return None; },
        };
        let pc = match point.checked_sub(self.center) {
            Some(v) => v,
            None => { return None; },
        };
        let norm = match Unit::try_from(pc) {
            Some(u) => u,
            None => { return None; },
        };
        Some(Intersection { point, norm, t })
    }

    fn intersects(&self, ray: &Ray, t_min: Scalar, t_max: Scalar) -> (r: bool) {
        self.intersect(ray, t_min, t_max).is_some()
    }
}

} // verus!
