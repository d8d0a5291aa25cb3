//! Three-dimensional vectors.

use vstd::prelude::*;

use crate::scalar::{iabs, in64, smul, Scalar, SCALE};

verus! {

/// The mathematical model of a 3-component value: the three fixed-point
/// counts as unbounded integers.
pub struct V3 {
    pub x: int,
    pub y: int,
    pub z: int,
}

/// Component-wise sum.
pub open spec fn v3_add(a: V3, b: V3) -> V3 {
    V3 { x: a.x + b.x, y: a.y + b.y, z: a.z + b.z }
}

/// Component-wise difference.
pub open spec fn v3_sub(a: V3, b: V3) -> V3 {
    V3 { x: a.x - b.x, y: a.y - b.y, z: a.z - b.z }
}

/// Component-wise negation.
pub open spec fn v3_neg(a: V3) -> V3 {
    V3 { x: -a.x, y: -a.y, z: -a.z }
}

/// Scaling of every component by `s`, truncated per component.
pub open spec fn v3_scale(a: V3, s: int) -> V3 {
    V3 { x: smul(a.x, s), y: smul(a.y, s), z: smul(a.z, s) }
}

/// The dot product: the sum of the truncated component products.
pub open spec fn v3_dot(a: V3, b: V3) -> int {
    smul(a.x, b.x) + smul(a.y, b.y) + smul(a.z, b.z)
}

/// The cross product, each term truncated.
pub open spec fn v3_cross(a: V3, b: V3) -> V3 {
    V3 {
        x: smul(a.y, b.z) - smul(a.z, b.y),
        y: smul(a.z, b.x) - smul(a.x, b.z),
        z: smul(a.x, b.y) - smul(a.y, b.x),
    }
}

/// Whether every component of the sum of `a` and `b` is representable.
pub open spec fn v3_add_ok(a: V3, b: V3) -> bool {
    in64(a.x + b.x) && in64(a.y + b.y) && in64(a.z + b.z)
}

/// Whether every component of the difference of `a` and `b` is representable.
pub open spec fn v3_sub_ok(a: V3, b: V3) -> bool {
    in64(a.x - b.x) && in64(a.y - b.y) && in64(a.z - b.z)
}

/// Whether every component of `a` can be negated.
pub open spec fn v3_neg_ok(a: V3) -> bool {
    a.x != i64::MIN && a.y != i64::MIN && a.z != i64::MIN
}

/// Whether every component of `a` scaled by `s` is representable.
pub open spec fn v3_scale_ok(a: V3, s: int) -> bool {
    in64(smul(a.x, s)) && in64(smul(a.y, s)) && in64(smul(a.z, s))
}

/// Whether the dot product of `a` and `b` is representable, every
/// intermediate step included.
pub open spec fn v3_dot_ok(a: V3, b: V3) -> bool {
    &&& in64(smul(a.x, b.x))
    &&& in64(smul(a.y, b.y))
    &&& in64(smul(a.z, b.z))
    &&& in64(smul(a.x, b.x) + smul(a.y, b.y))
    &&& in64(v3_dot(a, b))
}

/// Whether the cross product of `a` and `b` is representable, every
/// intermediate step included.
pub open spec fn v3_cross_ok(a: V3, b: V3) -> bool {
    &&& in64(smul(a.y, b.z))
    &&& in64(smul(a.z, b.y))
    &&& in64(smul(a.z, b.x))
    &&& in64(smul(a.x, b.z))
    &&& in64(smul(a.x, b.y))
    &&& in64(smul(a.y, b.x))
    &&& in64(smul(a.y, b.z) - smul(a.z, b.y))
    &&& in64(smul(a.z, b.x) - smul(a.x, b.z))
    &&& in64(smul(a.x, b.y) - smul(a.y, b.x))
}

/// A 3-dimensional vector.
///
/// Vectors are interpreted as column vectors. They implement the basic
/// algebra of the euclidean **R3** vector space: addition, subtraction,
/// negation, and scalar multiplication/division. They are stack-allocated
/// and cheap to copy.
#[derive(Debug, Clone, Copy, PartialEq, Eq, Structural)]
pub struct Vector {
    pub x: Scalar,
    pub y: Scalar,
    pub z: Scalar,
}

impl View for Vector {
    type V = V3;

    open spec fn view(&self) -> V3 {
        V3 { x: self.x@, y: self.y@, z: self.z@ }
    }
}

impl Vector {
    /// Construct a new vector with the given components.
    pub fn new(x: Scalar, y: Scalar, z: Scalar) -> (r: Vector)
        ensures
            r@ == (V3 { x: x@, y: y@, z: z@ }),
    {
        Vector { x, y, z }
    }

    /// Construct a new vector with all components equal.
    pub fn splat(n: Scalar) -> (r: Vector)
        ensures
            r@ == (V3 { x: n@, y: n@, z: n@ }),
    {
        Vector { x: n, y: n, z: n }
    }

    /// A vector of length 1 in the x direction.
    pub fn x_axis() -> (r: Vector)
        ensures
            r@ == (V3 { x: SCALE as int, y: 0, z: 0 }),
    {
        Vector { x: Scalar::one(), y: Scalar::zero(), z: Scalar::zero() }
    }

    /// A vector of length 1 in the y direction.
    pub fn y_axis() -> (r: Vector)
        ensures
            r@ == (V3 { x: 0, y: SCALE as int, z: 0 }),
    {
        Vector { x: Scalar::zero(), y: Scalar::one(), z: Scalar::zero() }
    }

    /// A vector of length 1 in the z direction.
    pub fn z_axis() -> (r: Vector)
        ensures
            r@ == (V3 { x: 0, y: 0, z: SCALE as int }),
    {
        Vector { x: Scalar::zero(), y: Scalar::zero(), z: Scalar::one() }
    }

    /// The zero-vector.
    pub fn zero() -> (r: Vector)
        ensures
            r@ == (V3 { x: 0, y: 0, z: 0 }),
    {
        Vector { x: Scalar::zero(), y: Scalar::zero(), z: Scalar::zero() }
    }

    /// Construct a new vector that is the component-wise minimum of the two.
    pub fn min(a: Vector, b: Vector) -> (r: Vector)
        ensures
            r.x@ == if a.x@ <= b.x@ { a.x@ } else { b.x@ },
            r.y@ == if a.y@ <= b.y@ { a.y@ } else { b.y@ },
            r.z@ == if a.z@ <= b.z@ { a.z@ } else { b.z@ },
    {
        Vector { x: a.x.min(b.x), y: a.y.min(b.y), z: a.z.min(b.z) }
    }

    /// Construct a new vector that is the component-wise maximum of the two.
    pub fn max(a: Vector, b: Vector) -> (r: Vector)
        ensures
            r.x@ == if a.x@ >= b.x@ { a.x@ } else { b.x@ },
            r.y@ == if a.y@ >= b.y@ { a.y@ } else { b.y@ },
            r.z@ == if a.z@ >= b.z@ { a.z@ } else { b.z@ },
    {
        Vector { x: a.x.max(b.x), y: a.y.max(b.y), z: a.z.max(b.z) }
    }

    /// Fetch the minimum component of this vector.
    pub fn min_component(&self) -> (r: Scalar)
        ensures
            r@ == if self@.x <= self@.y && self@.x <= self@.z {
                self@.x
            } else if self@.y <= self@.z {
                self@.y
            } else {
                self@.z
            },
    {
        self.x.min(self.y).min(self.z)
    }

    /// Fetch the maximum component of this vector.
    pub fn max_component(&self) -> (r: Scalar)
        ensures
            r@ == if self@.x >= self@.y && self@.x >= self@.z {
                self@.x
            } else if self@.y >= self@.z {
                self@.y
            } else {
                self@.z
            },
    {
        self.x.max(self.y).max(self.z)
    }

    /// Fetch a component by its index.
    pub fn component(&self, c: super::Component) -> (r: Scalar)
        ensures
            r@ == match c {
                super::Component::X => self@.x,
                super::Component::Y => self@.y,
                super::Component::Z => self@.z,
            },
    {
        match c {
            super::Component::X => self.x,
            super::Component::Y => self.y,
            super::Component::Z => self.z,
        }
    }

    /// Component-wise negation.
    pub fn neg(self) -> (r: Vector)
        requires
            v3_neg_ok(self@),
        ensures
            r@ == v3_neg(self@),
    {
        Vector { x: self.x.neg(), y: self.y.neg(), z: self.z.neg() }
    }

    /// Exact component-wise sum.
    pub fn add(self, rhs: Vector) -> (r: Vector)
        requires
            v3_add_ok(self@, rhs@),
        ensures
            r@ == v3_add(self@, rhs@),
    {
        Vector { x: self.x.add(rhs.x), y: self.y.add(rhs.y), z: self.z.add(rhs.z) }
    }

    /// Exact component-wise difference.
    pub fn sub(self, rhs: Vector) -> (r: Vector)
        requires
            v3_sub_ok(self@, rhs@),
        ensures
            r@ == v3_sub(self@, rhs@),
    {
        Vector { x: self.x.sub(rhs.x), y: self.y.sub(rhs.y), z: self.z.sub(rhs.z) }
    }

    /// Scalar multiplication, truncated per component.
    pub fn mul(self, rhs: Scalar) -> (r: Vector)
        requires
            v3_scale_ok(self@, rhs@),
        ensures
            r@ == v3_scale(self@, rhs@),
    {
        Vector { x: self.x.mul(rhs), y: self.y.mul(rhs), z: self.z.mul(rhs) }
    }

    /// Scalar division, truncated per component.
    pub fn div(self, rhs: Scalar) -> (r: Vector)
        requires
            rhs@ != 0,
            in64(crate::scalar::sdiv(self@.x, rhs@)),
            in64(crate::scalar::sdiv(self@.y, rhs@)),
            in64(crate::scalar::sdiv(self@.z, rhs@)),
        ensures
            r@.x == crate::scalar::sdiv(self@.x, rhs@),
            r@.y == crate::scalar::sdiv(self@.y, rhs@),
            r@.z == crate::scalar::sdiv(self@.z, rhs@),
    {
        Vector { x: self.x.div(rhs), y: self.y.div(rhs), z: self.z.div(rhs) }
    }

    /// Component-wise sum, or `None` when a component does not fit.
    pub fn checked_add(self, rhs: Vector) -> (r: Option<Vector>)
        ensures
            match r {
                Some(v) => v@ == v3_add(self@, rhs@),
                None => !v3_add_ok(self@, rhs@),
            },
    {
        let x = match self.x.checked_add(rhs.x) {
            Some(s) => s,
            None => { return None; },
        };
        let y = match self.y.checked_add(rhs.y) {
            Some(s) => s,
            None => { return None; },
        };
        let z = match self.z.checked_add(rhs.z) {
            Some(s) => s,
            None => { return None; },
        };
        Some(Vector { x, y, z })
    }

    /// Component-wise difference, or `None` when a component does not fit.
    pub fn checked_sub(self, rhs: Vector) -> (r: Option<Vector>)
        ensures
            match r {
                Some(v) => v@ == v3_sub(self@, rhs@),
                None => !v3_sub_ok(self@, rhs@),
            },
    {
        let x = match self.x.checked_sub(rhs.x) {
            Some(s) => s,
            None => { return None; },
        };
        let y = match self.y.checked_sub(rhs.y) {
            Some(s) => s,
            None => { return None; },
        };
        let z = match self.z.checked_sub(rhs.z) {
            Some(s) => s,
            None => { return None; },
        };
        Some(Vector { x, y, z })
    }

    /// Truncated scaling, or `None` when a component does not fit.
    pub fn checked_mul(self, rhs: Scalar) -> (r: Option<Vector>)
        ensures
            match r {
                Some(v) => v@ == v3_scale(self@, rhs@),
                None => !v3_scale_ok(self@, rhs@),
            },
    {
        let x = match self.x.checked_mul(rhs) {
            Some(s) => s,
            None => { return None; },
        };
        let y = match self.y.checked_mul(rhs) {
            Some(s) => s,
            None => { return None; },
        };
        let z = match self.z.checked_mul(rhs) {
            Some(s) => s,
            None => { return None; },
        };
        Some(Vector { x, y, z })
    }

    /// The dot product, or `None` when a step does not fit.
    pub fn checked_dot(self, rhs: Vector) -> (r: Option<Scalar>)
        ensures
            match r {
                Some(v) => v@ == v3_dot(self@, rhs@),
                None => !v3_dot_ok(self@, rhs@),
            },
    {
        let p0 = match self.x.checked_mul(rhs.x) {
            Some(s) => s,
            None => { return None; },
        };
        let p1 = match self.y.checked_mul(rhs.y) {
            Some(s) => s,
            None => { return None; },
        };
        let p2 = match self.z.checked_mul(rhs.z) {
            Some(s) => s,
            None => { return None; },
        };
        let s1 = match p0.checked_add(p1) {
            Some(s) => s,
            None => { return None; },
        };
        s1.checked_add(p2)
    }

    /// The cross product, or `None` when a step does not fit.
    pub fn checked_cross(self, rhs: Vector) -> (r: Option<Vector>)
        ensures
            match r {
                Some(v) => v@ == v3_cross(self@, rhs@),
                None => !v3_cross_ok(self@, rhs@),
            },
    {
        let p0 = match self.y.checked_mul(rhs.z) {
            Some(s) => s,
            None => { return None; },
        };
        let p1 = match self.z.checked_mul(rhs.y) {
            Some(s) => s,
            None => { return None; },
        };
        let p2 = match self.z.checked_mul(rhs.x) {
            Some(s) => s,
            None => { return None; },
        };
        let p3 = match self.x.checked_mul(rhs.z) {
            Some(s) => s,
            None => { return None; },
        };
        let p4 = match self.x.checked_mul(rhs.y) {
            Some(s) => s,
            None => { return None; },
        };
        let p5 = match self.y.checked_mul(rhs.x) {
            Some(s) => s,
            None => { return None; },
        };
        let x = match p0.checked_sub(p1) {
            Some(s) => s,
            None => { return None; },
        };
        let y = match p2.checked_sub(p3) {
            Some(s) => s,
            None => { return None; },
        };
        let z = match p4.checked_sub(p5) {
            Some(s) => s,
            None => { return None; },
        };
        Some(Vector { x, y, z })
    }

    /// Compute the dot product of this vector with another.
    pub fn dot(&self, rhs: Vector) -> (r: Scalar)
        requires
            v3_dot_ok(self@, rhs@),
        ensures
            r@ == v3_dot(self@, rhs@),
    {
        self.x.mul(rhs.x).add(self.y.mul(rhs.y)).add(self.z.mul(rhs.z))
    }

    /// Construct a new vector that is the cross product of this vector
    /// with another.
    pub fn cross(&self, rhs: Vector) -> (r: Vector)
        requires
            v3_cross_ok(self@, rhs@),
        ensures
            r@ == v3_cross(self@, rhs@),
    {
        Vector {
            x: self.y.mul(rhs.z).sub(self.z.mul(rhs.y)),
            y: self.z.mul(rhs.x).sub(self.x.mul(rhs.z)),
            z: self.x.mul(rhs.y).sub(self.y.mul(rhs.x)),
        }
    }

    /// Compute the squared length of the vector. It is faster to compute
    /// than [`Self::len()`], so use it when you can.
    pub fn len_squared(self) -> (r: Scalar)
        requires
            v3_dot_ok(self@, self@),
        ensures
            r@ == v3_dot(self@, self@),
    {
        self.dot(self)
    }

    /// Compute the length of the vector, truncated to the nearest
    /// representable unit.
    pub fn len(self) -> (r: Scalar)
        requires
            v3_dot_ok(self@, self@),
        ensures
            crate::scalar::is_isqrt(v3_dot(self@, self@) * (SCALE as int), r@),
    {
        proof {
            lemma_v3_dot_self_nonneg(self@);
        }
        self.dot(self).sqrt()
    }

    /// Returns `true` if all components are finite. Exact fixed-point
    /// arithmetic has no infinity or not-a-number state, so this is
    /// always the case.
    pub fn is_finite(self) -> (r: bool)
        ensures
            r,
    {
        true
    }

    /// Returns `true` if any component is not-a-number. Exact fixed-point
    /// arithmetic has no such state, so this is never the case.
    pub fn is_nan(self) -> (r: bool)
        ensures
            !r,
    {
        false
    }
}

/// A truncated product of equal factors is never negative.
pub proof fn lemma_smul_self_nonneg(a: int)
    ensures
        smul(a, a) >= 0,
{
    assert(a * a >= 0) by (nonlinear_arith);
}

/// A dot product of a vector with itself is never negative.
pub proof fn lemma_v3_dot_self_nonneg(a: V3)
    ensures
        v3_dot(a, a) >= 0,
{
    lemma_smul_self_nonneg(a.x);
    lemma_smul_self_nonneg(a.y);
    lemma_smul_self_nonneg(a.z);
}

/// The truncated product does not depend on the order of its factors.
pub proof fn lemma_smul_comm(a: int, b: int)
    ensures
        smul(a, b) == smul(b, a),
{
    assert(a * b == b * a) by (nonlinear_arith);
}

/// Vector addition is commutative: `u + v == v + u`.
pub proof fn lemma_v3_add_comm(u: V3, v: V3)
    ensures
        v3_add(u, v) == v3_add(v, u),
{
}

/// Vector addition is associative: `(u + v) + w == u + (v + w)`.
pub proof fn lemma_v3_add_assoc(u: V3, v: V3, w: V3)
    ensures
        v3_add(v3_add(u, v), w) == v3_add(u, v3_add(v, w)),
{
}

/// The cross product is antisymmetric: `u x v == -(v x u)`.
pub proof fn lemma_v3_cross_antisym(u: V3, v: V3)
    ensures
        v3_cross(u, v) == v3_neg(v3_cross(v, u)),
{
    lemma_smul_comm(u.y, v.z);
    lemma_smul_comm(u.z, v.y);
    lemma_smul_comm(u.z, v.x);
    lemma_smul_comm(u.x, v.z);
    lemma_smul_comm(u.x, v.y);
    lemma_smul_comm(u.y, v.x);
}

/// Scalar multiplication by a whole number distributes exactly over
/// vector addition: `s * (u + v) == s * u + s * v` whenever `s`
/// represents an integer. (For a fractional `s` the truncated products
/// can differ by one unit per component.)
pub proof fn lemma_v3_scale_int_distributes(u: V3, v: V3, k: int)
    ensures
        v3_scale(v3_add(u, v), k * (SCALE as int)) == v3_add(
            v3_scale(u, k * (SCALE as int)),
            v3_scale(v, k * (SCALE as int)),
        ),
{
    crate::scalar::lemma_smul_int(u.x + v.x, k);
    crate::scalar::lemma_smul_int(u.y + v.y, k);
    crate::scalar::lemma_smul_int(u.z + v.z, k);
    crate::scalar::lemma_smul_int(u.x, k);
    crate::scalar::lemma_smul_int(u.y, k);
    crate::scalar::lemma_smul_int(u.z, k);
    crate::scalar::lemma_smul_int(v.x, k);
    crate::scalar::lemma_smul_int(v.y, k);
    crate::scalar::lemma_smul_int(v.z, k);
    assert((u.x + v.x) * k == u.x * k + v.x * k) by (nonlinear_arith);
    assert((u.y + v.y) * k == u.y * k + v.y * k) by (nonlinear_arith);
    assert((u.z + v.z) * k == u.z * k + v.z * k) by (nonlinear_arith);
}

/// The truncated cross product is perpendicular to its first operand
/// up to rounding: the dot product of `u x v` with `u` — exactly zero
/// in unbounded arithmetic — is bounded by the truncation slack, under
/// three units for a unit-length `u`.
pub proof fn lemma_cross_perpendicular_within_slack(u: V3, v: V3)
    ensures
        iabs(v3_dot(v3_cross(u, v), u)) * (SCALE as int) < 2 * (iabs(u.x) + iabs(u.y) + iabs(u.z))
            + 3 * (SCALE as int),
{
    let s = SCALE as int;
    let p1 = u.y * v.z;
    let p2 = u.z * v.y;
    let p3 = u.z * v.x;
    let p4 = u.x * v.z;
    let p5 = u.x * v.y;
    let p6 = u.y * v.x;
    crate::scalar::lemma_tdiv_rem(p1, s);
    crate::scalar::lemma_tdiv_rem(p2, s);
    crate::scalar::lemma_tdiv_rem(p3, s);
    crate::scalar::lemma_tdiv_rem(p4, s);
    crate::scalar::lemma_tdiv_rem(p5, s);
    crate::scalar::lemma_tdiv_rem(p6, s);
    let c = v3_cross(u, v);
    let dx = (p1 - s * smul(u.y, v.z)) - (p2 - s * smul(u.z, v.y));
    let dy = (p3 - s * smul(u.z, v.x)) - (p4 - s * smul(u.x, v.z));
    let dz = (p5 - s * smul(u.x, v.y)) - (p6 - s * smul(u.y, v.x));
    assert(s * c.x == (p1 - p2) - dx);
    assert(s * c.y == (p3 - p4) - dy);
    assert(s * c.z == (p5 - p6) - dz);
    assert(iabs(dx) <= 2 * s - 2);
    assert(iabs(dy) <= 2 * s - 2);
    assert(iabs(dz) <= 2 * s - 2);
    let d = v3_dot(c, u);
    crate::scalar::lemma_tdiv_rem(c.x * u.x, s);
    crate::scalar::lemma_tdiv_rem(c.y * u.y, s);
    crate::scalar::lemma_tdiv_rem(c.z * u.z, s);
    let o1 = c.x * u.x - s * smul(c.x, u.x);
    let o2 = c.y * u.y - s * smul(c.y, u.y);
    let o3 = c.z * u.z - s * smul(c.z, u.z);
    assert(s * d == (c.x * u.x - o1) + (c.y * u.y - o2) + (c.z * u.z - o3));
    assert(s * (s * d) == s * (c.x * u.x) + s * (c.y * u.y) + s * (c.z * u.z) - s * (o1 + o2 + o3))
        by (nonlinear_arith)
        requires
            s * d == (c.x * u.x - o1) + (c.y * u.y - o2) + (c.z * u.z - o3),
    ;
    assert(s * (c.x * u.x) == (s * c.x) * u.x) by (nonlinear_arith);
    assert(s * (c.y * u.y) == (s * c.y) * u.y) by (nonlinear_arith);
    assert(s * (c.z * u.z) == (s * c.z) * u.z) by (nonlinear_arith);
    assert((s * c.x) * u.x == (p1 - p2) * u.x - dx * u.x) by (nonlinear_arith)
        requires
            s * c.x == (p1 - p2) - dx,
    ;
    assert((s * c.y) * u.y == (p3 - p4) * u.y - dy * u.y) by (nonlinear_arith)
        requires
            s * c.y == (p3 - p4) - dy,
    ;
    assert((s * c.z) * u.z == (p5 - p6) * u.z - dz * u.z) by (nonlinear_arith)
        requires
            s * c.z == (p5 - p6) - dz,
    ;
    assert((u.y * v.z - u.z * v.y) * u.x + (u.z * v.x - u.x * v.z) * u.y + (u.x * v.y - u.y * v.x)
        * u.z == 0) by (nonlinear_arith);
    assert((p1 - p2) * u.x + (p3 - p4) * u.y + (p5 - p6) * u.z == 0);
    assert(s * (s * d) == -(dx * u.x) - (dy * u.y) - (dz * u.z) - s * (o1 + o2 + o3));
    crate::scalar::lemma_prod_bound(dx, u.x, 2 * s - 2, iabs(u.x));
    crate::scalar::lemma_prod_bound(dy, u.y, 2 * s - 2, iabs(u.y));
    crate::scalar::lemma_prod_bound(dz, u.z, 2 * s - 2, iabs(u.z));
    assert((2 * s - 2) * iabs(u.x) <= 2 * s * iabs(u.x)) by (nonlinear_arith)
        requires
            s > 0,
            iabs(u.x) >= 0,
    ;
    assert((2 * s - 2) * iabs(u.y) <= 2 * s * iabs(u.y)) by (nonlinear_arith)
        requires
            s > 0,
            iabs(u.y) >= 0,
    ;
    assert((2 * s - 2) * iabs(u.z) <= 2 * s * iabs(u.z)) by (nonlinear_arith)
        requires
            s > 0,
            iabs(u.z) >= 0,
    ;
    assert(iabs(s * (o1 + o2 + o3)) <= s * (3 * s - 3)) by (nonlinear_arith)
        requires
            iabs(o1) <= s - 1,
            iabs(o2) <= s - 1,
            iabs(o3) <= s - 1,
            s > 0,
    ;
    let bound = 2 * s * iabs(u.x) + 2 * s * iabs(u.y) + 2 * s * iabs(u.z) + s * (3 * s - 3);
    assert(iabs(s * (s * d)) <= bound);
    assert(2 * s * iabs(u.x) == s * (2 * iabs(u.x))) by (nonlinear_arith);
    assert(2 * s * iabs(u.y) == s * (2 * iabs(u.y))) by (nonlinear_arith);
    assert(2 * s * iabs(u.z) == s * (2 * iabs(u.z))) by (nonlinear_arith);
    let cap = 2 * (iabs(u.x) + iabs(u.y) + iabs(u.z)) + 3 * s;
    assert(bound < s * cap) by (nonlinear_arith)
        requires
            bound == s * (2 * iabs(u.x)) + s * (2 * iabs(u.y)) + s * (2 * iabs(u.z)) + s * (3 * s
                - 3),
            cap == 2 * (iabs(u.x) + iabs(u.y) + iabs(u.z)) + 3 * s,
            s > 0,
    ;
    assert(iabs(s * (s * d)) == s * iabs(s * d)) by (nonlinear_arith)
        requires
            s > 0,
    ;
    assert(s * iabs(s * d) < s * cap);
    assert(iabs(s * d) < cap) by (nonlinear_arith)
        requires
            s * iabs(s * d) < s * cap,
            s > 0,
    ;
    assert(iabs(s * d) == iabs(d) * s) by (nonlinear_arith)
        requires
            s > 0,
    ;
}

/// For any scalar, scaling distributes over vector addition up to one
/// count per component: `s * (u + v)` and `s * u + s * v` differ by at
/// most one fixed-point unit in each coordinate. (For a scalar that
/// represents a whole number the two sides agree exactly; see
/// [`lemma_v3_scale_int_distributes`].)
pub proof fn lemma_v3_scale_distributes_within_unit(u: V3, v: V3, s: int)
    ensures
        iabs(v3_scale(v3_add(u, v), s).x - (v3_scale(u, s).x + v3_scale(v, s).x)) <= 1,
        iabs(v3_scale(v3_add(u, v), s).y - (v3_scale(u, s).y + v3_scale(v, s).y)) <= 1,
        iabs(v3_scale(v3_add(u, v), s).z - (v3_scale(u, s).z + v3_scale(v, s).z)) <= 1,
{
    crate::scalar::lemma_smul_distributes_within_unit(u.x, v.x, s);
    crate::scalar::lemma_smul_distributes_within_unit(u.y, v.y, s);
    crate::scalar::lemma_smul_distributes_within_unit(u.z, v.z, s);
}

} // verus!

