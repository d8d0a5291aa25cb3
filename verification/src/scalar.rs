//! The fixed-point scalar used throughout the crate.
//!
//! A [`Scalar`] holds a signed 64-bit count of units of `1 / 2^32`; the
//! represented value is `bits / SCALE` with `SCALE = 2^32`. All arithmetic
//! is exact integer arithmetic on those counts: addition and subtraction
//! are exact, while multiplication, division and square root truncate the
//! mathematical result toward zero to the nearest representable unit.
//! Every operation states precisely, over the integer count, which number
//! it returns. There is no rounding mode ambiguity, no infinity, and no
//! not-a-number state.

use vstd::prelude::*;

verus! {

/// Number of fixed-point units in 1.0.
pub const SCALE: i64 = 0x1_0000_0000;

/// Whether a count fits the 64-bit representation.
pub open spec fn in64(x: int) -> bool {
    i64::MIN <= x <= i64::MAX
}

/// Magnitude of a mathematical integer.
pub open spec fn iabs(a: int) -> int {
    if a >= 0 {
        a
    } else {
        -a
    }
}

/// Division truncated toward zero, as the executable operations perform it.
pub open spec fn tdiv(a: int, b: int) -> int
    recommends
        b != 0,
{
    if (a >= 0) == (b >= 0) {
        iabs(a) / iabs(b)
    } else {
        -(iabs(a) / iabs(b))
    }
}

/// The count held by the product of two scalars with counts `a` and `b`.
pub open spec fn smul(a: int, b: int) -> int {
    tdiv(a * b, SCALE as int)
}

/// The count held by the quotient of two scalars with counts `a` and `b`.
pub open spec fn sdiv(a: int, b: int) -> int
    recommends
        b != 0,
{
    tdiv(a * (SCALE as int), b)
}

/// A fixed-point number: the value `bits / 2^32`.
#[derive(Clone, Copy, PartialEq, Eq, Structural, Debug)]
pub struct Scalar {
    pub bits: i64,
}

impl View for Scalar {
    type V = int;

    open spec fn view(&self) -> int {
        self.bits as int
    }
}

/// Square root of `x`, truncated to an integer: holds exactly when
/// `r` is the greatest integer whose square does not exceed `x`.
pub open spec fn is_isqrt(x: int, r: int) -> bool {
    &&& r >= 0
    &&& r * r <= x
    &&& x < (r + 1) * (r + 1)
}


/// Bound on a product from bounds on its factors.
pub proof fn lemma_prod_bound(a: int, b: int, ba: int, bb: int)
    requires
        -ba <= a <= ba,
        -bb <= b <= bb,
        0 <= ba,
        0 <= bb,
    ensures
        -(ba * bb) <= a * b <= ba * bb,
{
    assert(-(ba * bb) <= a * b <= ba * bb) by (nonlinear_arith)
        requires
            -ba <= a <= ba,
            -bb <= b <= bb,
            0 <= ba,
            0 <= bb,
    ;
}

/// The truncated integer square root of `x` as a value: the unique `r`
/// with `r * r <= x < (r + 1) * (r + 1)`.
pub open spec fn isqrt_v(x: int) -> int {
    choose|r: int| is_isqrt(x, r)
}

/// Any root satisfying [`is_isqrt`] is the value of [`isqrt_v`].
pub proof fn lemma_isqrt_unique(x: int, r: int)
    requires
        is_isqrt(x, r),
    ensures
        isqrt_v(x) == r,
{
    assert(is_isqrt(x, r));
    let w = choose|w: int| is_isqrt(x, w);
    assert(is_isqrt(x, w));
    if w < r {
        assert((w + 1) * (w + 1) <= r * r) by (nonlinear_arith)
            requires
                0 <= w,
                w + 1 <= r,
        ;
        assert(false);
    }
    if r < w {
        assert((r + 1) * (r + 1) <= w * w) by (nonlinear_arith)
            requires
                0 <= r,
                r + 1 <= w,
        ;
        assert(false);
    }
}

/// Truncated division recovers an exact multiple: `(m * s) / s == m`.
pub proof fn lemma_tdiv_multiple(m: int, s: int)
    requires
        s > 0,
    ensures
        tdiv(m * s, s) == m,
{
    if m >= 0 {
        assert(m * s >= 0 && m * s == s * m) by (nonlinear_arith)
            requires
                m >= 0,
                s > 0,
        ;
        assert(iabs(m * s) == s * m);
        vstd::arithmetic::div_mod::lemma_div_multiples_vanish(m, s);
    } else {
        assert(m * s < 0 && -(m * s) == s * (-m)) by (nonlinear_arith)
            requires
                m < 0,
                s > 0,
        ;
        assert(iabs(m * s) == s * (-m));
        vstd::arithmetic::div_mod::lemma_div_multiples_vanish(-m, s);
    }
}

/// Scaling by a whole number is exact: multiplying a count by the scalar
/// that represents the integer `k` gives exactly `k` times the count.
pub proof fn lemma_smul_int(x: int, k: int)
    ensures
        smul(x, k * (SCALE as int)) == x * k,
{
    let s = SCALE as int;
    assert(x * (k * s) == (x * k) * s) by (nonlinear_arith);
    crate::scalar::lemma_tdiv_multiple(x * k, s);
}

/// A truncated product of two non-negative counts is non-negative.
pub proof fn lemma_smul_nonneg(a: int, b: int)
    requires
        a >= 0,
        b >= 0,
    ensures
        smul(a, b) >= 0,
{
    assert(a * b >= 0) by (nonlinear_arith)
        requires
            a >= 0,
            b >= 0,
    ;
}

/// The truncated product is monotone over non-negative factors.
pub proof fn lemma_smul_mono(a1: int, b1: int, a2: int, b2: int)
    requires
        0 <= a1 <= a2,
        0 <= b1 <= b2,
    ensures
        smul(a1, b1) <= smul(a2, b2),
{
    assert(0 <= a1 * b1 <= a2 * b2) by (nonlinear_arith)
        requires
            0 <= a1 <= a2,
            0 <= b1 <= b2,
    ;
    vstd::arithmetic::div_mod::lemma_div_is_ordered(a1 * b1, a2 * b2, SCALE as int);
}

/// Truncated division leaves a remainder smaller than the divisor in
/// magnitude: `p - s * tdiv(p, s)` lies strictly between `-s` and `s`.
pub proof fn lemma_tdiv_rem(p: int, s: int)
    requires
        s > 0,
    ensures
        -s < p - s * tdiv(p, s) < s,
{
    if p >= 0 {
        vstd::arithmetic::div_mod::lemma_fundamental_div_mod(p, s);
        assert(p == s * (p / s) + p % s);
        assert(0 <= p % s < s);
        assert(tdiv(p, s) == p / s);
    } else {
        vstd::arithmetic::div_mod::lemma_fundamental_div_mod(-p, s);
        assert(-p == s * ((-p) / s) + (-p) % s);
        assert(0 <= (-p) % s < s);
        assert(tdiv(p, s) == -((-p) / s));
        assert(s * (-((-p) / s)) == -(s * ((-p) / s))) by (nonlinear_arith);
    }
}

/// Truncated scaling distributes over addition up to one unit: the
/// truncated product of a sum differs from the sum of the truncated
/// products by at most one count.
pub proof fn lemma_smul_distributes_within_unit(x: int, y: int, s: int)
    ensures
        iabs(smul(x + y, s) - (smul(x, s) + smul(y, s))) <= 1,
{
    let sc = SCALE as int;
    let p = x * s;
    let q = y * s;
    assert((x + y) * s == x * s + y * s) by (nonlinear_arith);
    lemma_tdiv_rem(p, sc);
    lemma_tdiv_rem(q, sc);
    lemma_tdiv_rem(p + q, sc);
    let d = tdiv(p + q, sc) - tdiv(p, sc) - tdiv(q, sc);
    assert(sc * d == sc * tdiv(p + q, sc) - sc * tdiv(p, sc) - sc * tdiv(q, sc))
        by (nonlinear_arith)
        requires
            d == tdiv(p + q, sc) - tdiv(p, sc) - tdiv(q, sc),
    ;
    if d >= 2 {
        assert(sc * d >= 2 * sc) by (nonlinear_arith)
            requires
                d >= 2,
                sc > 0,
        ;
        assert(false);
    }
    if d <= -2 {
        assert(sc * d <= -2 * sc) by (nonlinear_arith)
            requires
                d <= -2,
                sc > 0,
        ;
        assert(false);
    }
}

/// Bound on a truncated product from bounds on its factors.
pub proof fn lemma_smul_bound(a: int, b: int, ba: int, bb: int)
    requires
        iabs(a) <= ba,
        iabs(b) <= bb,
        0 <= ba,
        0 <= bb,
    ensures
        iabs(smul(a, b)) <= (ba * bb) / (SCALE as int),
{
    assert(iabs(a * b) <= ba * bb) by (nonlinear_arith)
        requires
            -ba <= a <= ba,
            -bb <= b <= bb,
            0 <= ba,
            0 <= bb,
    ;
    vstd::arithmetic::div_mod::lemma_div_is_ordered(iabs(a * b), ba * bb, SCALE as int);
}

/// Integer square root by bisection.
fn isqrt_u128(x: u128) -> (r: u64)
    requires
        x < 0x1_0000_0000_0000_0000_0000_0000u128,
    ensures
        is_isqrt(x as int, r as int),
{
    let mut lo: u128 = 0;
    let mut hi: u128 = 0x1_0000_0000_0000;
    assert(hi * hi == 0x1_0000_0000_0000_0000_0000_0000u128) by (nonlinear_arith)
        requires
            hi == 0x1_0000_0000_0000u128,
    ;
    while lo + 1 < hi
        invariant
            lo < hi,
            hi <= 0x1_0000_0000_0000,
            lo * lo <= x,
            x < hi * hi,
        decreases hi - lo,
    {
        let mid = lo + (hi - lo) / 2;
        proof {
            lemma_prod_bound(mid as int, mid as int, 0x1_0000_0000_0000, 0x1_0000_0000_0000);
        }
        if mid * mid <= x {
            lo = mid;
        } else {
            hi = mid;
        }
    }
    assert(lo + 1 == hi);
    lo as u64
}

impl Scalar {
    /// The scalar with the given count of `1 / 2^32` units.
    pub fn from_bits(bits: i64) -> (r: Scalar)
        ensures
            r@ == bits,
    {
        Scalar { bits }
    }

    /// The scalar representing the integer `n`.
    pub fn from_int(n: i32) -> (r: Scalar)
        ensures
            r@ == n * (SCALE as int),
    {
        Scalar { bits: (n as i64) * SCALE }
    }

    /// The scalar representing the unsigned machine integer `n`.
    pub fn from_u32(n: u32) -> (r: Scalar)
        requires
            n <= 0x7fff_ffff,
        ensures
            r@ == n * (SCALE as int),
    {
        Scalar { bits: (n as i64) * SCALE }
    }

    /// The scalar closest to `num / den` from the direction of zero.
    pub fn from_ratio(num: i64, den: i64) -> (r: Scalar)
        requires
            den != 0,
            i64::MIN <= tdiv(num * (SCALE as int), den as int) <= i64::MAX,
        ensures
            r@ == tdiv(num * (SCALE as int), den as int),
    {
        proof {
            lemma_prod_bound(num as int, SCALE as int, 0x8000_0000_0000_0000, 0x1_0000_0000);
        }
        let p: i128 = (num as i128) * (SCALE as i128);
        let d: i128 = den as i128;
        let neg = (p < 0) != (d < 0);
        let pm: u128 = if p < 0 { (-p) as u128 } else { p as u128 };
        let dm: u128 = if d < 0 { (-d) as u128 } else { d as u128 };
        let q: u128 = pm / dm;
        assert(pm == iabs(num * (SCALE as int)));
        assert(dm == iabs(den as int));
        if neg {
            let bits = -(q as i128);
            Scalar { bits: bits as i64 }
        } else {
            Scalar { bits: q as i64 }
        }
    }

    /// Zero, the additive identity.
    pub fn zero() -> (r: Scalar)
        ensures
            r@ == 0,
    {
        Scalar { bits: 0 }
    }

    /// One, the multiplicative identity.
    pub fn one() -> (r: Scalar)
        ensures
            r@ == SCALE,
    {
        Scalar { bits: SCALE }
    }

    /// Exact sum.
    pub fn add(self, rhs: Scalar) -> (r: Scalar)
        requires
            i64::MIN <= self@ + rhs@ <= i64::MAX,
        ensures
            r@ == self@ + rhs@,
    {
        Scalar { bits: self.bits + rhs.bits }
    }

    /// Exact difference.
    pub fn sub(self, rhs: Scalar) -> (r: Scalar)
        requires
            i64::MIN <= self@ - rhs@ <= i64::MAX,
        ensures
            r@ == self@ - rhs@,
    {
        Scalar { bits: self.bits - rhs.bits }
    }

    /// Exact negation.
    pub fn neg(self) -> (r: Scalar)
        requires
            self@ != i64::MIN,
        ensures
            r@ == -self@,
    {
        Scalar { bits: -self.bits }
    }

    /// Product, truncated toward zero to the nearest unit.
    pub fn mul(self, rhs: Scalar) -> (r: Scalar)
        requires
            i64::MIN <= smul(self@, rhs@) <= i64::MAX,
        ensures
            r@ == smul(self@, rhs@),
    {
        proof {
            lemma_prod_bound(
                self.bits as int,
                rhs.bits as int,
                0x8000_0000_0000_0000,
                0x8000_0000_0000_0000,
            );
        }
        let p: i128 = (self.bits as i128) * (rhs.bits as i128);
        let neg = p < 0;
        let pm: u128 = if p < 0 { (-p) as u128 } else { p as u128 };
        let q: u128 = pm / (SCALE as u128);
        assert(pm == iabs(self@ * rhs@));
        if neg {
            let bits = -(q as i128);
            Scalar { bits: bits as i64 }
        } else {
            Scalar { bits: q as i64 }
        }
    }

    /// Quotient, truncated toward zero to the nearest unit.
    pub fn div(self, rhs: Scalar) -> (r: Scalar)
        requires
            rhs@ != 0,
            i64::MIN <= sdiv(self@, rhs@) <= i64::MAX,
        ensures
            r@ == sdiv(self@, rhs@),
    {
        proof {
            lemma_prod_bound(self.bits as int, SCALE as int, 0x8000_0000_0000_0000, 0x1_0000_0000);
        }
        let p: i128 = (self.bits as i128) * (SCALE as i128);
        let d: i128 = rhs.bits as i128;
        let neg = (p < 0) != (d < 0);
        let pm: u128 = if p < 0 { (-p) as u128 } else { p as u128 };
        let dm: u128 = if d < 0 { (-d) as u128 } else { d as u128 };
        let q: u128 = pm / dm;
        assert(pm == iabs(self@ * (SCALE as int)));
        assert(dm == iabs(rhs@));
        if neg {
            let bits = -(q as i128);
            Scalar { bits: bits as i64 }
        } else {
            Scalar { bits: q as i64 }
        }
    }

    /// Sum, or `None` when it does not fit the representation.
    pub fn checked_add(self, rhs: Scalar) -> (r: Option<Scalar>)
        ensures
            match r {
                Some(v) => v@ == self@ + rhs@,
                None => !(i64::MIN <= self@ + rhs@ <= i64::MAX),
            },
    {
        let s: i128 = (self.bits as i128) + (rhs.bits as i128);
        if i64::MIN as i128 <= s && s <= i64::MAX as i128 {
            Some(Scalar { bits: s as i64 })
        } else {
            None
        }
    }

    /// Difference, or `None` when it does not fit the representation.
    pub fn checked_sub(self, rhs: Scalar) -> (r: Option<Scalar>)
        ensures
            match r {
                Some(v) => v@ == self@ - rhs@,
                None => !(i64::MIN <= self@ - rhs@ <= i64::MAX),
            },
    {
        let s: i128 = (self.bits as i128) - (rhs.bits as i128);
        if i64::MIN as i128 <= s && s <= i64::MAX as i128 {
            Some(Scalar { bits: s as i64 })
        } else {
            None
        }
    }

    /// Truncated product, or `None` when it does not fit the representation.
    pub fn checked_mul(self, rhs: Scalar) -> (r: Option<Scalar>)
        ensures
            match r {
                Some(v) => v@ == smul(self@, rhs@),
                None => !(i64::MIN <= smul(self@, rhs@) <= i64::MAX),
            },
    {
        proof {
            lemma_prod_bound(
                self.bits as int,
                rhs.bits as int,
                0x8000_0000_0000_0000,
                0x8000_0000_0000_0000,
            );
        }
        let p: i128 = (self.bits as i128) * (rhs.bits as i128);
        let neg = p < 0;
        let pm: u128 = if p < 0 { (-p) as u128 } else { p as u128 };
        let q: u128 = pm / (SCALE as u128);
        assert(pm == iabs(self@ * rhs@));
        if neg {
            let bits = -(q as i128);
            if bits >= i64::MIN as i128 {
                Some(Scalar { bits: bits as i64 })
            } else {
                None
            }
        } else {
            if q <= i64::MAX as u128 {
                Some(Scalar { bits: q as i64 })
            } else {
                None
            }
        }
    }

    /// Truncated quotient, or `None` when the divisor is zero or the
    /// quotient does not fit the representation.
    pub fn checked_div(self, rhs: Scalar) -> (r: Option<Scalar>)
        ensures
            match r {
                Some(v) => rhs@ != 0 && v@ == sdiv(self@, rhs@),
                None => rhs@ == 0 || !(i64::MIN <= sdiv(self@, rhs@) <= i64::MAX),
            },
    {
        if rhs.bits == 0 {
            return None;
        }
        proof {
            lemma_prod_bound(self.bits as int, SCALE as int, 0x8000_0000_0000_0000, 0x1_0000_0000);
        }
        let p: i128 = (self.bits as i128) * (SCALE as i128);
        let d: i128 = rhs.bits as i128;
        let neg = (p < 0) != (d < 0);
        let pm: u128 = if p < 0 { (-p) as u128 } else { p as u128 };
        let dm: u128 = if d < 0 { (-d) as u128 } else { d as u128 };
        let q: u128 = pm / dm;
        assert(pm == iabs(self@ * (SCALE as int)));
        assert(dm == iabs(rhs@));
        if neg {
            let bits = -(q as i128);
            if bits >= i64::MIN as i128 {
                Some(Scalar { bits: bits as i64 })
            } else {
                None
            }
        } else {
            if q <= i64::MAX as u128 {
                Some(Scalar { bits: q as i64 })
            } else {
                None
            }
        }
    }

    /// Negation, or `None` for the one count with no representable
    /// negation.
    pub fn checked_neg(self) -> (r: Option<Scalar>)
        ensures
            match r {
                Some(v) => v@ == -self@,
                None => self@ == i64::MIN,
            },
    {
        if self.bits == i64::MIN {
            None
        } else {
            Some(Scalar { bits: -self.bits })
        }
    }

    /// Division by a positive machine integer, truncated toward zero.
    pub fn div_int(self, n: u32) -> (r: Scalar)
        requires
            n > 0,
        ensures
            r@ == tdiv(self@, n as int),
    {
        let neg = self.bits < 0;
        let m: u128 = if self.bits < 0 {
            (-(self.bits as i128)) as u128
        } else {
            self.bits as u128
        };
        let q: u128 = m / (n as u128);
        assert(m == iabs(self@));
        if neg {
            let bits = -(q as i128);
            Scalar { bits: bits as i64 }
        } else {
            Scalar { bits: q as i64 }
        }
    }

    /// Magnitude.
    pub fn abs(self) -> (r: Scalar)
        requires
            self@ != i64::MIN,
        ensures
            r@ == iabs(self@),
    {
        if self.bits < 0 {
            Scalar { bits: -self.bits }
        } else {
            self
        }
    }

    /// Whether this scalar has strictly greater magnitude than `rhs`.
    pub fn abs_gt(self, rhs: Scalar) -> (r: bool)
        ensures
            r == (iabs(self@) > iabs(rhs@)),
    {
        let a: i128 = self.bits as i128;
        let b: i128 = rhs.bits as i128;
        let am: i128 = if a < 0 { -a } else { a };
        let bm: i128 = if b < 0 { -b } else { b };
        am > bm
    }

    /// Strict order on the represented values.
    pub fn lt(self, rhs: Scalar) -> (r: bool)
        ensures
            r == (self@ < rhs@),
    {
        self.bits < rhs.bits
    }

    /// Non-strict order on the represented values.
    pub fn le(self, rhs: Scalar) -> (r: bool)
        ensures
            r == (self@ <= rhs@),
    {
        self.bits <= rhs.bits
    }

    /// Whether this scalar is exactly zero.
    pub fn is_zero(self) -> (r: bool)
        ensures
            r == (self@ == 0),
    {
        self.bits == 0
    }

    /// The smaller of two scalars.
    pub fn min(self, rhs: Scalar) -> (r: Scalar)
        ensures
            r@ == if self@ <= rhs@ { self@ } else { rhs@ },
    {
        if self.bits <= rhs.bits {
            self
        } else {
            rhs
        }
    }

    /// The larger of two scalars.
    pub fn max(self, rhs: Scalar) -> (r: Scalar)
        ensures
            r@ == if self@ >= rhs@ { self@ } else { rhs@ },
    {
        if self.bits >= rhs.bits {
            self
        } else {
            rhs
        }
    }

    /// Square root, truncated to the nearest unit: the result is the
    /// largest representable number whose square does not exceed `self`.
    pub fn sqrt(self) -> (r: Scalar)
        requires
            self@ >= 0,
        ensures
            is_isqrt(self@ * (SCALE as int), r@),
    {
        proof {
            lemma_prod_bound(self.bits as int, SCALE as int, 0x8000_0000_0000_0000, 0x1_0000_0000);
        }
        let x: u128 = (self.bits as u128) * (SCALE as u128);
        assert(x == self@ * (SCALE as int));
        let root = isqrt_u128(x);
        assert(root < 0x1_0000_0000_0000) by (nonlinear_arith)
            requires
                root >= 0,
                (root as int) * (root as int) <= x as int,
                x < 0x1_0000_0000_0000_0000_0000_0000u128,
        ;
        Scalar { bits: root as i64 }
    }
}

} // verus!
