//! Unit-length vectors.

use vstd::prelude::*;

use super::vector::{v3_dot, v3_dot_ok, v3_scale, v3_scale_ok, V3, Vector};
use crate::scalar::{iabs, in64, isqrt_v, lemma_isqrt_unique, lemma_tdiv_multiple, sdiv, smul, Scalar, SCALE};

verus! {

/// How far the squared length of a [`Unit`] may stray from one, in
/// fixed-point units: `2^-12` of the unit square.
pub const UNIT_TOLERANCE: i64 = 0x10_0000;

/// The scale factor normalization applies to `v`: the reciprocal of the
/// truncated length of `v`, itself truncated.
pub open spec fn unit_scale(v: V3) -> int {
    sdiv(SCALE as int, isqrt_v(v3_dot(v, v) * (SCALE as int)))
}

/// The normalization of `v`: every component scaled by [`unit_scale`].
pub open spec fn normalized(v: V3) -> V3 {
    v3_scale(v, unit_scale(v))
}

/// Whether normalizing `v` stays representable, every intermediate step
/// included. Under this condition [`Unit::try_from`] succeeds exactly
/// when the truncated length of `v` is nonzero and the normalized vector
/// passes the length check.
pub open spec fn try_from_ok(v: V3) -> bool {
    let d = v3_dot(v, v);
    let len = isqrt_v(d * (SCALE as int));
    let recip = sdiv(SCALE as int, len);
    let n = v3_scale(v, recip);
    &&& v3_dot_ok(v, v)
    &&& (len != 0 ==> in64(recip))
    &&& (len != 0 ==> v3_scale_ok(v, recip))
    &&& (len != 0 ==> v3_dot_ok(n, n))
}

/// Whether normalization of `v` semantically succeeds: the truncated
/// length is nonzero and the normalized vector passes the length check.
/// Under [`try_from_ok`] this decides [`Unit::try_from`] exactly.
pub open spec fn normalizes(v: V3) -> bool {
    let len = isqrt_v(v3_dot(v, v) * (SCALE as int));
    let n = normalized(v);
    len != 0 && iabs(v3_dot(n, n) - SCALE) <= UNIT_TOLERANCE
}

/// A 3-dimensional vector of length 1.
///
/// A separate type, because whether a vector is normalized is significant
/// in rendering operations. There is no public constructor from arbitrary
/// component values: the only ways to obtain one are the axis
/// constructors and the fallible normalization [`Unit::try_from`], so the
/// length invariant [`Unit::wf`] cannot be silently violated. For the
/// same reason almost no arithmetic is defined on units — most
/// operations are not length-preserving.
#[derive(Debug, Clone, Copy, PartialEq, Eq, Structural)]
pub struct Unit {
    x: Scalar,
    y: Scalar,
    z: Scalar,
}

impl View for Unit {
    type V = V3;

    closed spec fn view(&self) -> V3 {
        V3 { x: self.x@, y: self.y@, z: self.z@ }
    }
}

impl Unit {
    /// The length invariant: the squared length differs from one by at
    /// most [`UNIT_TOLERANCE`] fixed-point units.
    pub open spec fn wf(&self) -> bool {
        iabs(v3_dot(self@, self@) - SCALE) <= UNIT_TOLERANCE
    }

    /// The unit vector along the x-axis.
    pub fn x_axis() -> (r: Unit)
        ensures
            r@ == (V3 { x: SCALE as int, y: 0, z: 0 }),
            r.wf(),
    {
        let r = Unit { x: Scalar::one(), y: Scalar::zero(), z: Scalar::zero() };
        proof {
            lemma_tdiv_multiple(SCALE as int, SCALE as int);
        }
        r
    }

    /// The unit vector along the y-axis.
    pub fn y_axis() -> (r: Unit)
        ensures
            r@ == (V3 { x: 0, y: SCALE as int, z: 0 }),
            r.wf(),
    {
        let r = Unit { x: Scalar::zero(), y: Scalar::one(), z: Scalar::zero() };
        proof {
            lemma_tdiv_multiple(SCALE as int, SCALE as int);
        }
        r
    }

    /// The unit vector along the z-axis.
    pub fn z_axis() -> (r: Unit)
        ensures
            r@ == (V3 { x: 0, y: 0, z: SCALE as int }),
            r.wf(),
    {
        let r = Unit { x: Scalar::zero(), y: Scalar::zero(), z: Scalar::one() };
        proof {
            lemma_tdiv_multiple(SCALE as int, SCALE as int);
        }
        r
    }

    /// The x-coordinate.
    pub fn x(&self) -> (r: Scalar)
        ensures
            r@ == self@.x,
    {
        self.x
    }

    /// The y-coordinate.
    pub fn y(&self) -> (r: Scalar)
        ensures
            r@ == self@.y,
    {
        self.y
    }

    /// The z-coordinate.
    pub fn z(&self) -> (r: Scalar)
        ensures
            r@ == self@.z,
    {
        self.z
    }

    /// Fetch a component by its index.
    pub fn component(&self, c: super::Component) -> (r: Scalar)
        ensures
            r@ == match c {
                super::Component::X => self@.x,
                super::Component::Y => self@.y,
                super::Component::Z => self@.z,
            },
    {
        match c {
            super::Component::X => self.x,
            super::Component::Y => self.y,
            super::Component::Z => self.z,
        }
    }

    /// The vector with the same components.
    pub fn to_vector(self) -> (r: Vector)
        ensures
            r@ == self@,
    {
        Vector { x: self.x, y: self.y, z: self.z }
    }

    /// Negation. Flipping every component leaves the length unchanged.
    pub fn neg(self) -> (r: Unit)
        requires
            self.wf(),
            super::vector::v3_neg_ok(self@),
        ensures
            r@ == super::vector::v3_neg(self@),
            r.wf(),
    {
        let r = Unit { x: self.x.neg(), y: self.y.neg(), z: self.z.neg() };
        proof {
            lemma_smul_neg_both(self@.x, self@.x);
            lemma_smul_neg_both(self@.y, self@.y);
            lemma_smul_neg_both(self@.z, self@.z);
        }
        r
    }

    /// Normalize a vector.
    ///
    /// Fails on a zero-length vector, and on any vector so short or so
    /// long that scaling by the reciprocal of its truncated length cannot
    /// produce a vector whose squared length is within
    /// [`UNIT_TOLERANCE`] of one.
    pub fn try_from(v: Vector) -> (r: Option<Unit>)
        ensures
            match r {
                Some(u) => u.wf() && u@ == normalized(v@),
                None => true,
            },
            v3_dot_ok(v@, v@) && v3_dot(v@, v@) == 0 ==> r is None,
            try_from_ok(v@) ==> (r is Some <==> normalizes(v@)),
    {
        let xx = match v.x.checked_mul(v.x) {
            Some(s) => s,
            None => { return None; },
        };
        let yy = match v.y.checked_mul(v.y) {
            Some(s) => s,
            None => { return None; },
        };
        let zz = match v.z.checked_mul(v.z) {
            Some(s) => s,
            None => { return None; },
        };
        let xy = match xx.checked_add(yy) {
            Some(s) => s,
            None => { return None; },
        };
        let d = match xy.checked_add(zz) {
            Some(s) => s,
            None => { return None; },
        };
        proof {
            super::vector::lemma_v3_dot_self_nonneg(v@);
        }
        let len = d.sqrt();
        proof {
            lemma_isqrt_unique(d@ * (SCALE as int), len@);
            if d@ == 0 {
                assert(len@ == 0) by (nonlinear_arith)
                    requires
                        len@ >= 0,
                        len@ * len@ <= 0,
                ;
            }
        }
        if len.is_zero() {
            return None;
        }
        let recip = match Scalar::one().checked_div(len) {
            Some(s) => s,
            None => { return None; },
        };
        let ux = match v.x.checked_mul(recip) {
            Some(s) => s,
            None => { return None; },
        };
        let uy = match v.y.checked_mul(recip) {
            Some(s) => s,
            None => { return None; },
        };
        let uz = match v.z.checked_mul(recip) {
            Some(s) => s,
            None => { return None; },
        };
        let u = Unit { x: ux, y: uy, z: uz };
        let uxx = match ux.checked_mul(ux) {
            Some(s) => s,
            None => { return None; },
        };
        let uyy = match uy.checked_mul(uy) {
            Some(s) => s,
            None => { return None; },
        };
        let uzz = match uz.checked_mul(uz) {
            Some(s) => s,
            None => { return None; },
        };
        let uxy = match uxx.checked_add(uyy) {
            Some(s) => s,
            None => { return None; },
        };
        let dd = match uxy.checked_add(uzz) {
            Some(s) => s,
            None => { return None; },
        };
        proof {
            super::vector::lemma_smul_self_nonneg(ux@);
            super::vector::lemma_smul_self_nonneg(uy@);
            super::vector::lemma_smul_self_nonneg(uz@);
        }
        let err = dd.sub(Scalar::one());
        if err.bits <= UNIT_TOLERANCE && err.bits >= -UNIT_TOLERANCE {
            Some(u)
        } else {
            None
        }
    }
}

impl Vector {
    /// Normalize the vector: [`Unit::try_from`] under its traditional
    /// name. Fails on zero-length or ill-conditioned vectors instead of
    /// panicking, so a caller can skip the sample and carry on.
    pub fn normalize(self) -> (r: Option<Unit>)
        ensures
            match r {
                Some(n) => n.wf() && n@ == normalized(self@),
                None => true,
            },
            v3_dot_ok(self@, self@) && v3_dot(self@, self@) == 0 ==> r is None,
            try_from_ok(self@) ==> (r is Some <==> normalizes(self@)),
    {
        Unit::try_from(self)
    }
}

/// A vector whose truncated squared length is exactly one normalizes,
/// and normalization leaves it unchanged: the truncated length is one,
/// so the reciprocal scale is one, which scales every component to
/// itself.
pub proof fn lemma_exact_unit_normalizes(v: V3)
    requires
        v3_dot(v, v) == SCALE as int,
        in64(v.x),
        in64(v.y),
        in64(v.z),
    ensures
        try_from_ok(v),
        normalizes(v),
        normalized(v) == v,
{
    let s = SCALE as int;
    assert(s * s <= v3_dot(v, v) * s) by (nonlinear_arith)
        requires
            v3_dot(v, v) == s,
    ;
    assert(v3_dot(v, v) * s < (s + 1) * (s + 1)) by (nonlinear_arith)
        requires
            v3_dot(v, v) == s,
            s > 0,
    ;
    lemma_isqrt_unique(v3_dot(v, v) * s, s);
    lemma_tdiv_multiple(s, s);
    assert(unit_scale(v) == s);
    lemma_tdiv_multiple(v.x, s);
    lemma_tdiv_multiple(v.y, s);
    lemma_tdiv_multiple(v.z, s);
    assert(smul(v.x, s) == v.x) by {
        assert(v.x * s == v.x * s);
    };
    assert(normalized(v) == v);
    crate::geo::vector::lemma_smul_self_nonneg(v.x);
    crate::geo::vector::lemma_smul_self_nonneg(v.y);
    crate::geo::vector::lemma_smul_self_nonneg(v.z);
}

/// Negating both factors leaves a truncated product unchanged.
proof fn lemma_smul_neg_both(a: int, b: int)
    ensures
        smul(-a, -b) == smul(a, b),
{
    assert((-a) * (-b) == a * b) by (nonlinear_arith);
}

} // verus!
