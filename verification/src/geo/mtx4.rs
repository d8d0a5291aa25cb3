//! Row-major 4x4 homogeneous transforms (Mtx4).

use vstd::prelude::*;

use super::point3::Point3;
use super::vec3::Vec3;
use super::matrix::{div_row_spec, divide_row, elim_full_spec, elim_row_spec, eliminate_row, eliminate_row_full, rowv};
use super::vector::V3;
use crate::scalar::{in64, sdiv, smul, iabs, Scalar, SCALE};

verus! {

/// A 4x4 square matrix.
///
/// Stored internally in row-major format. Generally speaking, these are
/// used to encode 3-dimensional transformations of [`Vec3`] and
/// [`Point3`] values in homogeneous coordinates: a point picks up the
/// translation column, a vector does not.
#[derive(Debug, Clone, Copy, PartialEq)]
pub struct Mtx4 {
    pub rows: [[Scalar; 4]; 4],
}

/// The identity entry pattern: one on the diagonal, zero elsewhere.
pub open spec fn ident_entry(i: int, j: int) -> int {
    if i == j { SCALE as int } else { 0 }
}

/// The entry at row `i`, column `j` of the product `a * b`: the sum of
/// the four truncated products down the row and column.
pub open spec fn mul_entry(a: Mtx4, b: Mtx4, i: int, j: int) -> int {
    smul(a.at(i, 0), b.at(0, j)) + smul(a.at(i, 1), b.at(1, j)) + smul(a.at(i, 2), b.at(2, j)) + smul(a.at(i, 3), b.at(3, j))
}

/// Whether computing [`mul_entry`]`(a, b, i, j)` stays representable,
/// every intermediate step included.
pub open spec fn mul_entry_ok(a: Mtx4, b: Mtx4, i: int, j: int) -> bool {
    &&& in64(smul(a.at(i, 0), b.at(0, j)))
    &&& in64(smul(a.at(i, 1), b.at(1, j)))
    &&& in64(smul(a.at(i, 2), b.at(2, j)))
    &&& in64(smul(a.at(i, 3), b.at(3, j)))
    &&& in64(smul(a.at(i, 0), b.at(0, j)) + smul(a.at(i, 1), b.at(1, j)))
    &&& in64(smul(a.at(i, 0), b.at(0, j)) + smul(a.at(i, 1), b.at(1, j)) + smul(a.at(i, 2), b.at(2, j)))
    &&& in64(mul_entry(a, b, i, j))
}

/// Whether the whole product `a * b` stays representable.
pub open spec fn mul_ok(a: Mtx4, b: Mtx4) -> bool {
    forall|i: int, j: int| 0 <= i < 4 && 0 <= j < 4 ==> #[trigger] mul_entry_ok(a, b, i, j)
}

/// Whether one entry of the sum `a + b` stays representable.
pub open spec fn add_entry_ok(a: Mtx4, b: Mtx4, i: int, j: int) -> bool {
    in64(a.at(i, j) + b.at(i, j))
}

/// Whether the whole sum `a + b` stays representable.
pub open spec fn add_ok(a: Mtx4, b: Mtx4) -> bool {
    forall|i: int, j: int| 0 <= i < 4 && 0 <= j < 4 ==> #[trigger] add_entry_ok(a, b, i, j)
}

/// Whether one entry of the difference `a - b` stays representable.
pub open spec fn sub_entry_ok(a: Mtx4, b: Mtx4, i: int, j: int) -> bool {
    in64(a.at(i, j) - b.at(i, j))
}

/// Whether the whole difference `a - b` stays representable.
pub open spec fn sub_ok(a: Mtx4, b: Mtx4) -> bool {
    forall|i: int, j: int| 0 <= i < 4 && 0 <= j < 4 ==> #[trigger] sub_entry_ok(a, b, i, j)
}

/// Whether one entry of `a` can be negated.
pub open spec fn neg_entry_ok(a: Mtx4, i: int, j: int) -> bool {
    a.at(i, j) != i64::MIN
}

/// Whether the whole of `a` can be negated.
pub open spec fn neg_ok(a: Mtx4) -> bool {
    forall|i: int, j: int| 0 <= i < 4 && 0 <= j < 4 ==> #[trigger] neg_entry_ok(a, i, j)
}

/// Whether one entry of `a` scaled by `s` stays representable.
pub open spec fn scale_entry_ok(a: Mtx4, s: int, i: int, j: int) -> bool {
    in64(smul(a.at(i, j), s))
}

/// Whether the whole of `a` scaled by `s` stays representable.
pub open spec fn scale_mat_ok(a: Mtx4, s: int) -> bool {
    forall|i: int, j: int| 0 <= i < 4 && 0 <= j < 4 ==> #[trigger] scale_entry_ok(a, s, i, j)
}

/// Whether every entry of the product `a * b` is within `tol` units of
/// the identity matrix: the meaning of a successful inversion.
pub open spec fn near_identity(a: Mtx4, b: Mtx4, tol: int) -> bool {
    forall|i: int, j: int| 0 <= i < 4 && 0 <= j < 4 ==>
        iabs(#[trigger] mul_entry(a, b, i, j) - ident_entry(i, j)) <= tol
}


/// Component `i` of the matrix-vector product: the translation column is
/// not applied.
pub open spec fn mul_vec_entry(m: Mtx4, v: V3, i: int) -> int {
    smul(m.at(i, 0), v.x) + smul(m.at(i, 1), v.y) + smul(m.at(i, 2), v.z)
}

/// Whether computing [`mul_vec_entry`]`(m, v, i)` stays representable.
pub open spec fn mul_vec_entry_ok(m: Mtx4, v: V3, i: int) -> bool {
    &&& in64(smul(m.at(i, 0), v.x))
    &&& in64(smul(m.at(i, 1), v.y))
    &&& in64(smul(m.at(i, 2), v.z))
    &&& in64(smul(m.at(i, 0), v.x) + smul(m.at(i, 1), v.y))
    &&& in64(mul_vec_entry(m, v, i))
}

/// Whether the whole matrix-vector product stays representable.
pub open spec fn mul_vec_ok(m: Mtx4, v: V3) -> bool {
    forall|i: int| 0 <= i < 3 ==> #[trigger] mul_vec_entry_ok(m, v, i)
}

/// Component `i` of the matrix-point product: the translation column
/// applies.
pub open spec fn mul_pt_entry(m: Mtx4, p: V3, i: int) -> int {
    mul_vec_entry(m, p, i) + m.at(i, 3)
}

/// Whether computing [`mul_pt_entry`]`(m, p, i)` stays representable.
pub open spec fn mul_pt_entry_ok(m: Mtx4, p: V3, i: int) -> bool {
    &&& mul_vec_entry_ok(m, p, i)
    &&& in64(mul_pt_entry(m, p, i))
}

/// Whether the whole matrix-point product stays representable.
pub open spec fn mul_pt_ok(m: Mtx4, p: V3) -> bool {
    forall|i: int| 0 <= i < 3 ==> #[trigger] mul_pt_entry_ok(m, p, i)
}

impl Mtx4 {
    /// The entry at row `r`, column `c`, as its fixed-point count.
    pub open spec fn at(self, r: int, c: int) -> int {
        self.rows[r][c]@
    }

    /// Construct a matrix from its rows.
    pub fn from_rows(rows: [[Scalar; 4]; 4]) -> (r: Self)
        ensures
            r.rows == rows,
    {
        Self { rows }
    }

    /// Construct an identity matrix.
    pub fn identity() -> (r: Self)
        ensures
            r.at(0, 0) == ident_entry(0, 0),
            r.at(0, 1) == ident_entry(0, 1),
            r.at(0, 2) == ident_entry(0, 2),
            r.at(0, 3) == ident_entry(0, 3),
            r.at(1, 0) == ident_entry(1, 0),
            r.at(1, 1) == ident_entry(1, 1),
            r.at(1, 2) == ident_entry(1, 2),
            r.at(1, 3) == ident_entry(1, 3),
            r.at(2, 0) == ident_entry(2, 0),
            r.at(2, 1) == ident_entry(2, 1),
            r.at(2, 2) == ident_entry(2, 2),
            r.at(2, 3) == ident_entry(2, 3),
            r.at(3, 0) == ident_entry(3, 0),
            r.at(3, 1) == ident_entry(3, 1),
            r.at(3, 2) == ident_entry(3, 2),
            r.at(3, 3) == ident_entry(3, 3),
    {
        let one = Scalar::one();
        let zero = Scalar::zero();
        Self { rows: [[one, zero, zero, zero], [zero, one, zero, zero], [zero, zero, one, zero], [zero, zero, zero, one]] }
    }

    /// Construct a matrix representing translation by the given vector.
    ///
    /// Acts like an identity on vectors and addition on points. Note that
    /// for inverses, it is much faster to use the identity
    /// `shift(v).inverse() == shift(v.neg())`.
    pub fn shift(v: Vec3) -> (r: Self)
        ensures
            r.at(0, 0) == ident_entry(0, 0),
            r.at(0, 1) == ident_entry(0, 1),
            r.at(0, 2) == ident_entry(0, 2),
            r.at(0, 3) == v@.x,
            r.at(1, 0) == ident_entry(1, 0),
            r.at(1, 1) == ident_entry(1, 1),
            r.at(1, 2) == ident_entry(1, 2),
            r.at(1, 3) == v@.y,
            r.at(2, 0) == ident_entry(2, 0),
            r.at(2, 1) == ident_entry(2, 1),
            r.at(2, 2) == ident_entry(2, 2),
            r.at(2, 3) == v@.z,
            r.at(3, 0) == ident_entry(3, 0),
            r.at(3, 1) == ident_entry(3, 1),
            r.at(3, 2) == ident_entry(3, 2),
            r.at(3, 3) == ident_entry(3, 3),
    {
        let one = Scalar::one();
        let zero = Scalar::zero();
        Self {
            rows: [
                [one, zero, zero, v.x],
                [zero, one, zero, v.y],
                [zero, zero, one, v.z],
                [zero, zero, zero, one],
            ],
        }
    }

    /// Construct a matrix representing scaling by the given magnitudes.
    ///
    /// Note that for inverses, it is much faster to invert each magnitude
    /// and build the opposite scaling matrix.
    pub fn scale(x: Scalar, y: Scalar, z: Scalar) -> (r: Self)
        ensures
            r.at(0, 0) == x@,
            r.at(0, 1) == 0,
            r.at(0, 2) == 0,
            r.at(0, 3) == 0,
            r.at(1, 0) == 0,
            r.at(1, 1) == y@,
            r.at(1, 2) == 0,
            r.at(1, 3) == 0,
            r.at(2, 0) == 0,
            r.at(2, 1) == 0,
            r.at(2, 2) == z@,
            r.at(2, 3) == 0,
            r.at(3, 0) == 0,
            r.at(3, 1) == 0,
            r.at(3, 2) == 0,
            r.at(3, 3) == SCALE as int,
    {
        let zero = Scalar::zero();
        Self {
            rows: [
                [x, zero, zero, zero],
                [zero, y, zero, zero],
                [zero, zero, z, zero],
                [zero, zero, zero, Scalar::one()],
            ],
        }
    }

    /// Construct a matrix representing uniform scaling by the given
    /// magnitude. See also [`Self::scale()`].
    pub fn scale_uniform(n: Scalar) -> (r: Self)
        ensures
            r.at(0, 0) == n@,
            r.at(1, 1) == n@,
            r.at(2, 2) == n@,
            r.at(3, 3) == SCALE as int,
            r.at(0, 1) == 0,
            r.at(0, 2) == 0,
            r.at(0, 3) == 0,
            r.at(1, 0) == 0,
            r.at(1, 2) == 0,
            r.at(1, 3) == 0,
            r.at(2, 0) == 0,
            r.at(2, 1) == 0,
            r.at(2, 3) == 0,
            r.at(3, 0) == 0,
            r.at(3, 1) == 0,
            r.at(3, 2) == 0,
    {
        Self::scale(n, n, n)
    }

    /// Construct a matrix that is the transpose of this matrix.
    pub fn transpose(&self) -> (r: Self)
        ensures
            r.at(0, 0) == self.at(0, 0),
            r.at(0, 1) == self.at(1, 0),
            r.at(0, 2) == self.at(2, 0),
            r.at(0, 3) == self.at(3, 0),
            r.at(1, 0) == self.at(0, 1),
            r.at(1, 1) == self.at(1, 1),
            r.at(1, 2) == self.at(2, 1),
            r.at(1, 3) == self.at(3, 1),
            r.at(2, 0) == self.at(0, 2),
            r.at(2, 1) == self.at(1, 2),
            r.at(2, 2) == self.at(2, 2),
            r.at(2, 3) == self.at(3, 2),
            r.at(3, 0) == self.at(0, 3),
            r.at(3, 1) == self.at(1, 3),
            r.at(3, 2) == self.at(2, 3),
            r.at(3, 3) == self.at(3, 3),
    {
        Self {
            rows: [
                [self.rows[0][0], self.rows[1][0], self.rows[2][0], self.rows[3][0]],
                [self.rows[0][1], self.rows[1][1], self.rows[2][1], self.rows[3][1]],
                [self.rows[0][2], self.rows[1][2], self.rows[2][2], self.rows[3][2]],
                [self.rows[0][3], self.rows[1][3], self.rows[2][3], self.rows[3][3]],
            ],
        }
    }

    /// Construct the component-wise negation of this matrix.
    pub fn neg(self) -> (r: Self)
        requires
            neg_ok(self),
        ensures
            r.at(0, 0) == -self.at(0, 0),
            r.at(0, 1) == -self.at(0, 1),
            r.at(0, 2) == -self.at(0, 2),
            r.at(0, 3) == -self.at(0, 3),
            r.at(1, 0) == -self.at(1, 0),
            r.at(1, 1) == -self.at(1, 1),
            r.at(1, 2) == -self.at(1, 2),
            r.at(1, 3) == -self.at(1, 3),
            r.at(2, 0) == -self.at(2, 0),
            r.at(2, 1) == -self.at(2, 1),
            r.at(2, 2) == -self.at(2, 2),
            r.at(2, 3) == -self.at(2, 3),
            r.at(3, 0) == -self.at(3, 0),
            r.at(3, 1) == -self.at(3, 1),
            r.at(3, 2) == -self.at(3, 2),
            r.at(3, 3) == -self.at(3, 3),
    {
        proof {
            assert(neg_entry_ok(self, 0, 0));
            assert(neg_entry_ok(self, 0, 1));
            assert(neg_entry_ok(self, 0, 2));
            assert(neg_entry_ok(self, 0, 3));
            assert(neg_entry_ok(self, 1, 0));
            assert(neg_entry_ok(self, 1, 1));
            assert(neg_entry_ok(self, 1, 2));
            assert(neg_entry_ok(self, 1, 3));
            assert(neg_entry_ok(self, 2, 0));
            assert(neg_entry_ok(self, 2, 1));
            assert(neg_entry_ok(self, 2, 2));
            assert(neg_entry_ok(self, 2, 3));
            assert(neg_entry_ok(self, 3, 0));
            assert(neg_entry_ok(self, 3, 1));
            assert(neg_entry_ok(self, 3, 2));
            assert(neg_entry_ok(self, 3, 3));
        }
        Self {
            rows: [
                [self.rows[0][0].neg(), self.rows[0][1].neg(), self.rows[0][2].neg(), self.rows[0][3].neg()],
                [self.rows[1][0].neg(), self.rows[1][1].neg(), self.rows[1][2].neg(), self.rows[1][3].neg()],
                [self.rows[2][0].neg(), self.rows[2][1].neg(), self.rows[2][2].neg(), self.rows[2][3].neg()],
                [self.rows[3][0].neg(), self.rows[3][1].neg(), self.rows[3][2].neg(), self.rows[3][3].neg()],
            ],
        }
    }

    /// Construct the exact component-wise sum of two matrices.
    pub fn add(self, rhs: Self) -> (r: Self)
        requires
            add_ok(self, rhs),
        ensures
            r.at(0, 0) == self.at(0, 0) + rhs.at(0, 0),
            r.at(0, 1) == self.at(0, 1) + rhs.at(0, 1),
            r.at(0, 2) == self.at(0, 2) + rhs.at(0, 2),
            r.at(0, 3) == self.at(0, 3) + rhs.at(0, 3),
            r.at(1, 0) == self.at(1, 0) + rhs.at(1, 0),
            r.at(1, 1) == self.at(1, 1) + rhs.at(1, 1),
            r.at(1, 2) == self.at(1, 2) + rhs.at(1, 2),
            r.at(1, 3) == self.at(1, 3) + rhs.at(1, 3),
            r.at(2, 0) == self.at(2, 0) + rhs.at(2, 0),
            r.at(2, 1) == self.at(2, 1) + rhs.at(2, 1),
            r.at(2, 2) == self.at(2, 2) + rhs.at(2, 2),
            r.at(2, 3) == self.at(2, 3) + rhs.at(2, 3),
            r.at(3, 0) == self.at(3, 0) + rhs.at(3, 0),
            r.at(3, 1) == self.at(3, 1) + rhs.at(3, 1),
            r.at(3, 2) == self.at(3, 2) + rhs.at(3, 2),
            r.at(3, 3) == self.at(3, 3) + rhs.at(3, 3),
    {
        proof {
            assert(add_entry_ok(self, rhs, 0, 0));
            assert(add_entry_ok(self, rhs, 0, 1));
            assert(add_entry_ok(self, rhs, 0, 2));
            assert(add_entry_ok(self, rhs, 0, 3));
            assert(add_entry_ok(self, rhs, 1, 0));
            assert(add_entry_ok(self, rhs, 1, 1));
            assert(add_entry_ok(self, rhs, 1, 2));
            assert(add_entry_ok(self, rhs, 1, 3));
            assert(add_entry_ok(self, rhs, 2, 0));
            assert(add_entry_ok(self, rhs, 2, 1));
            assert(add_entry_ok(self, rhs, 2, 2));
            assert(add_entry_ok(self, rhs, 2, 3));
            assert(add_entry_ok(self, rhs, 3, 0));
            assert(add_entry_ok(self, rhs, 3, 1));
            assert(add_entry_ok(self, rhs, 3, 2));
            assert(add_entry_ok(self, rhs, 3, 3));
        }
        Self {
            rows: [
                [self.rows[0][0].add(rhs.rows[0][0]), self.rows[0][1].add(rhs.rows[0][1]), self.rows[0][2].add(rhs.rows[0][2]), self.rows[0][3].add(rhs.rows[0][3])],
                [self.rows[1][0].add(rhs.rows[1][0]), self.rows[1][1].add(rhs.rows[1][1]), self.rows[1][2].add(rhs.rows[1][2]), self.rows[1][3].add(rhs.rows[1][3])],
                [self.rows[2][0].add(rhs.rows[2][0]), self.rows[2][1].add(rhs.rows[2][1]), self.rows[2][2].add(rhs.rows[2][2]), self.rows[2][3].add(rhs.rows[2][3])],
                [self.rows[3][0].add(rhs.rows[3][0]), self.rows[3][1].add(rhs.rows[3][1]), self.rows[3][2].add(rhs.rows[3][2]), self.rows[3][3].add(rhs.rows[3][3])],
            ],
        }
    }

    /// Construct the exact component-wise difference of two matrices.
    pub fn sub(self, rhs: Self) -> (r: Self)
        requires
            sub_ok(self, rhs),
        ensures
            r.at(0, 0) == self.at(0, 0) - rhs.at(0, 0),
            r.at(0, 1) == self.at(0, 1) - rhs.at(0, 1),
            r.at(0, 2) == self.at(0, 2) - rhs.at(0, 2),
            r.at(0, 3) == self.at(0, 3) - rhs.at(0, 3),
            r.at(1, 0) == self.at(1, 0) - rhs.at(1, 0),
            r.at(1, 1) == self.at(1, 1) - rhs.at(1, 1),
            r.at(1, 2) == self.at(1, 2) - rhs.at(1, 2),
            r.at(1, 3) == self.at(1, 3) - rhs.at(1, 3),
            r.at(2, 0) == self.at(2, 0) - rhs.at(2, 0),
            r.at(2, 1) == self.at(2, 1) - rhs.at(2, 1),
            r.at(2, 2) == self.at(2, 2) - rhs.at(2, 2),
            r.at(2, 3) == self.at(2, 3) - rhs.at(2, 3),
            r.at(3, 0) == self.at(3, 0) - rhs.at(3, 0),
            r.at(3, 1) == self.at(3, 1) - rhs.at(3, 1),
            r.at(3, 2) == self.at(3, 2) - rhs.at(3, 2),
            r.at(3, 3) == self.at(3, 3) - rhs.at(3, 3),
    {
        proof {
            assert(sub_entry_ok(self, rhs, 0, 0));
            assert(sub_entry_ok(self, rhs, 0, 1));
            assert(sub_entry_ok(self, rhs, 0, 2));
            assert(sub_entry_ok(self, rhs, 0, 3));
            assert(sub_entry_ok(self, rhs, 1, 0));
            assert(sub_entry_ok(self, rhs, 1, 1));
            assert(sub_entry_ok(self, rhs, 1, 2));
            assert(sub_entry_ok(self, rhs, 1, 3));
            assert(sub_entry_ok(self, rhs, 2, 0));
            assert(sub_entry_ok(self, rhs, 2, 1));
            assert(sub_entry_ok(self, rhs, 2, 2));
            assert(sub_entry_ok(self, rhs, 2, 3));
            assert(sub_entry_ok(self, rhs, 3, 0));
            assert(sub_entry_ok(self, rhs, 3, 1));
            assert(sub_entry_ok(self, rhs, 3, 2));
            assert(sub_entry_ok(self, rhs, 3, 3));
        }
        Self {
            rows: [
                [self.rows[0][0].sub(rhs.rows[0][0]), self.rows[0][1].sub(rhs.rows[0][1]), self.rows[0][2].sub(rhs.rows[0][2]), self.rows[0][3].sub(rhs.rows[0][3])],
                [self.rows[1][0].sub(rhs.rows[1][0]), self.rows[1][1].sub(rhs.rows[1][1]), self.rows[1][2].sub(rhs.rows[1][2]), self.rows[1][3].sub(rhs.rows[1][3])],
                [self.rows[2][0].sub(rhs.rows[2][0]), self.rows[2][1].sub(rhs.rows[2][1]), self.rows[2][2].sub(rhs.rows[2][2]), self.rows[2][3].sub(rhs.rows[2][3])],
                [self.rows[3][0].sub(rhs.rows[3][0]), self.rows[3][1].sub(rhs.rows[3][1]), self.rows[3][2].sub(rhs.rows[3][2]), self.rows[3][3].sub(rhs.rows[3][3])],
            ],
        }
    }

    /// Construct the matrix product `self * rhs`: each entry is the sum
    /// of the truncated products down the row and column.
    pub fn mul(self, rhs: Self) -> (r: Self)
        requires
            mul_ok(self, rhs),
        ensures
            r.at(0, 0) == mul_entry(self, rhs, 0, 0),
            r.at(0, 1) == mul_entry(self, rhs, 0, 1),
            r.at(0, 2) == mul_entry(self, rhs, 0, 2),
            r.at(0, 3) == mul_entry(self, rhs, 0, 3),
            r.at(1, 0) == mul_entry(self, rhs, 1, 0),
            r.at(1, 1) == mul_entry(self, rhs, 1, 1),
            r.at(1, 2) == mul_entry(self, rhs, 1, 2),
            r.at(1, 3) == mul_entry(self, rhs, 1, 3),
            r.at(2, 0) == mul_entry(self, rhs, 2, 0),
            r.at(2, 1) == mul_entry(self, rhs, 2, 1),
            r.at(2, 2) == mul_entry(self, rhs, 2, 2),
            r.at(2, 3) == mul_entry(self, rhs, 2, 3),
            r.at(3, 0) == mul_entry(self, rhs, 3, 0),
            r.at(3, 1) == mul_entry(self, rhs, 3, 1),
            r.at(3, 2) == mul_entry(self, rhs, 3, 2),
            r.at(3, 3) == mul_entry(self, rhs, 3, 3),
    {
        proof {
            assert(mul_entry_ok(self, rhs, 0, 0));
            assert(mul_entry_ok(self, rhs, 0, 1));
            assert(mul_entry_ok(self, rhs, 0, 2));
            assert(mul_entry_ok(self, rhs, 0, 3));
            assert(mul_entry_ok(self, rhs, 1, 0));
            assert(mul_entry_ok(self, rhs, 1, 1));
            assert(mul_entry_ok(self, rhs, 1, 2));
            assert(mul_entry_ok(self, rhs, 1, 3));
            assert(mul_entry_ok(self, rhs, 2, 0));
            assert(mul_entry_ok(self, rhs, 2, 1));
            assert(mul_entry_ok(self, rhs, 2, 2));
            assert(mul_entry_ok(self, rhs, 2, 3));
            assert(mul_entry_ok(self, rhs, 3, 0));
            assert(mul_entry_ok(self, rhs, 3, 1));
            assert(mul_entry_ok(self, rhs, 3, 2));
            assert(mul_entry_ok(self, rhs, 3, 3));
        }
        let e00 = self.rows[0][0].mul(rhs.rows[0][0]).add(self.rows[0][1].mul(rhs.rows[1][0])).add(self.rows[0][2].mul(rhs.rows[2][0])).add(self.rows[0][3].mul(rhs.rows[3][0]));
        let e01 = self.rows[0][0].mul(rhs.rows[0][1]).add(self.rows[0][1].mul(rhs.rows[1][1])).add(self.rows[0][2].mul(rhs.rows[2][1])).add(self.rows[0][3].mul(rhs.rows[3][1]));
        let e02 = self.rows[0][0].mul(rhs.rows[0][2]).add(self.rows[0][1].mul(rhs.rows[1][2])).add(self.rows[0][2].mul(rhs.rows[2][2])).add(self.rows[0][3].mul(rhs.rows[3][2]));
        let e03 = self.rows[0][0].mul(rhs.rows[0][3]).add(self.rows[0][1].mul(rhs.rows[1][3])).add(self.rows[0][2].mul(rhs.rows[2][3])).add(self.rows[0][3].mul(rhs.rows[3][3]));
        let e10 = self.rows[1][0].mul(rhs.rows[0][0]).add(self.rows[1][1].mul(rhs.rows[1][0])).add(self.rows[1][2].mul(rhs.rows[2][0])).add(self.rows[1][3].mul(rhs.rows[3][0]));
        let e11 = self.rows[1][0].mul(rhs.rows[0][1]).add(self.rows[1][1].mul(rhs.rows[1][1])).add(self.rows[1][2].mul(rhs.rows[2][1])).add(self.rows[1][3].mul(rhs.rows[3][1]));
        let e12 = self.rows[1][0].mul(rhs.rows[0][2]).add(self.rows[1][1].mul(rhs.rows[1][2])).add(self.rows[1][2].mul(rhs.rows[2][2])).add(self.rows[1][3].mul(rhs.rows[3][2]));
        let e13 = self.rows[1][0].mul(rhs.rows[0][3]).add(self.rows[1][1].mul(rhs.rows[1][3])).add(self.rows[1][2].mul(rhs.rows[2][3])).add(self.rows[1][3].mul(rhs.rows[3][3]));
        let e20 = self.rows[2][0].mul(rhs.rows[0][0]).add(self.rows[2][1].mul(rhs.rows[1][0])).add(self.rows[2][2].mul(rhs.rows[2][0])).add(self.rows[2][3].mul(rhs.rows[3][0]));
        let e21 = self.rows[2][0].mul(rhs.rows[0][1]).add(self.rows[2][1].mul(rhs.rows[1][1])).add(self.rows[2][2].mul(rhs.rows[2][1])).add(self.rows[2][3].mul(rhs.rows[3][1]));
        let e22 = self.rows[2][0].mul(rhs.rows[0][2]).add(self.rows[2][1].mul(rhs.rows[1][2])).add(self.rows[2][2].mul(rhs.rows[2][2])).add(self.rows[2][3].mul(rhs.rows[3][2]));
        let e23 = self.rows[2][0].mul(rhs.rows[0][3]).add(self.rows[2][1].mul(rhs.rows[1][3])).add(self.rows[2][2].mul(rhs.rows[2][3])).add(self.rows[2][3].mul(rhs.rows[3][3]));
        let e30 = self.rows[3][0].mul(rhs.rows[0][0]).add(self.rows[3][1].mul(rhs.rows[1][0])).add(self.rows[3][2].mul(rhs.rows[2][0])).add(self.rows[3][3].mul(rhs.rows[3][0]));
        let e31 = self.rows[3][0].mul(rhs.rows[0][1]).add(self.rows[3][1].mul(rhs.rows[1][1])).add(self.rows[3][2].mul(rhs.rows[2][1])).add(self.rows[3][3].mul(rhs.rows[3][1]));
        let e32 = self.rows[3][0].mul(rhs.rows[0][2]).add(self.rows[3][1].mul(rhs.rows[1][2])).add(self.rows[3][2].mul(rhs.rows[2][2])).add(self.rows[3][3].mul(rhs.rows[3][2]));
        let e33 = self.rows[3][0].mul(rhs.rows[0][3]).add(self.rows[3][1].mul(rhs.rows[1][3])).add(self.rows[3][2].mul(rhs.rows[2][3])).add(self.rows[3][3].mul(rhs.rows[3][3]));
        Self {
            rows: [
                [e00, e01, e02, e03],
                [e10, e11, e12, e13],
                [e20, e21, e22, e23],
                [e30, e31, e32, e33],
            ],
        }
    }

    /// Construct this matrix with every entry scaled by `rhs`,
    /// truncated per entry.
    pub fn mul_scalar(self, rhs: Scalar) -> (r: Self)
        requires
            scale_mat_ok(self, rhs@),
        ensures
            r.at(0, 0) == smul(self.at(0, 0), rhs@),
            r.at(0, 1) == smul(self.at(0, 1), rhs@),
            r.at(0, 2) == smul(self.at(0, 2), rhs@),
            r.at(0, 3) == smul(self.at(0, 3), rhs@),
            r.at(1, 0) == smul(self.at(1, 0), rhs@),
            r.at(1, 1) == smul(self.at(1, 1), rhs@),
            r.at(1, 2) == smul(self.at(1, 2), rhs@),
            r.at(1, 3) == smul(self.at(1, 3), rhs@),
            r.at(2, 0) == smul(self.at(2, 0), rhs@),
            r.at(2, 1) == smul(self.at(2, 1), rhs@),
            r.at(2, 2) == smul(self.at(2, 2), rhs@),
            r.at(2, 3) == smul(self.at(2, 3), rhs@),
            r.at(3, 0) == smul(self.at(3, 0), rhs@),
            r.at(3, 1) == smul(self.at(3, 1), rhs@),
            r.at(3, 2) == smul(self.at(3, 2), rhs@),
            r.at(3, 3) == smul(self.at(3, 3), rhs@),
    {
        proof {
            assert(scale_entry_ok(self, rhs@, 0, 0));
            assert(scale_entry_ok(self, rhs@, 0, 1));
            assert(scale_entry_ok(self, rhs@, 0, 2));
            assert(scale_entry_ok(self, rhs@, 0, 3));
            assert(scale_entry_ok(self, rhs@, 1, 0));
            assert(scale_entry_ok(self, rhs@, 1, 1));
            assert(scale_entry_ok(self, rhs@, 1, 2));
            assert(scale_entry_ok(self, rhs@, 1, 3));
            assert(scale_entry_ok(self, rhs@, 2, 0));
            assert(scale_entry_ok(self, rhs@, 2, 1));
            assert(scale_entry_ok(self, rhs@, 2, 2));
            assert(scale_entry_ok(self, rhs@, 2, 3));
            assert(scale_entry_ok(self, rhs@, 3, 0));
            assert(scale_entry_ok(self, rhs@, 3, 1));
            assert(scale_entry_ok(self, rhs@, 3, 2));
            assert(scale_entry_ok(self, rhs@, 3, 3));
        }
        Self {
            rows: [
                [self.rows[0][0].mul(rhs), self.rows[0][1].mul(rhs), self.rows[0][2].mul(rhs), self.rows[0][3].mul(rhs)],
                [self.rows[1][0].mul(rhs), self.rows[1][1].mul(rhs), self.rows[1][2].mul(rhs), self.rows[1][3].mul(rhs)],
                [self.rows[2][0].mul(rhs), self.rows[2][1].mul(rhs), self.rows[2][2].mul(rhs), self.rows[2][3].mul(rhs)],
                [self.rows[3][0].mul(rhs), self.rows[3][1].mul(rhs), self.rows[3][2].mul(rhs), self.rows[3][3].mul(rhs)],
            ],
        }
    }

    /// Transform a vector: the translation column is ignored, as a
    /// vector is a free displacement.
    pub fn mul_vector(self, v: Vec3) -> (r: Vec3)
        requires
            mul_vec_ok(self, v@),
        ensures
            r@.x == mul_vec_entry(self, v@, 0),
            r@.y == mul_vec_entry(self, v@, 1),
            r@.z == mul_vec_entry(self, v@, 2),
    {
        proof {
            assert(mul_vec_entry_ok(self, v@, 0));
            assert(mul_vec_entry_ok(self, v@, 1));
            assert(mul_vec_entry_ok(self, v@, 2));
        }
        let c0 = self.rows[0][0].mul(v.x).add(self.rows[0][1].mul(v.y)).add(self.rows[0][2].mul(v.z));
        let c1 = self.rows[1][0].mul(v.x).add(self.rows[1][1].mul(v.y)).add(self.rows[1][2].mul(v.z));
        let c2 = self.rows[2][0].mul(v.x).add(self.rows[2][1].mul(v.y)).add(self.rows[2][2].mul(v.z));
        Vec3 { x: c0, y: c1, z: c2 }
    }

    /// Transform a point: the translation column applies, as a point is
    /// a location.
    pub fn mul_point(self, p: Point3) -> (r: Point3)
        requires
            mul_pt_ok(self, p@),
        ensures
            r@.x == mul_pt_entry(self, p@, 0),
            r@.y == mul_pt_entry(self, p@, 1),
            r@.z == mul_pt_entry(self, p@, 2),
    {
        proof {
            assert(mul_pt_entry_ok(self, p@, 0));
            assert(mul_pt_entry_ok(self, p@, 1));
            assert(mul_pt_entry_ok(self, p@, 2));
        }
        let c0 = self.rows[0][0].mul(p.x).add(self.rows[0][1].mul(p.y)).add(self.rows[0][2].mul(p.z)).add(self.rows[0][3]);
        let c1 = self.rows[1][0].mul(p.x).add(self.rows[1][1].mul(p.y)).add(self.rows[1][2].mul(p.z)).add(self.rows[1][3]);
        let c2 = self.rows[2][0].mul(p.x).add(self.rows[2][1].mul(p.y)).add(self.rows[2][2].mul(p.z)).add(self.rows[2][3]);
        Point3 { x: c0, y: c1, z: c2 }
    }
}


/// Whether building the rotation matrix for axis `a`, sine `s` and
/// cosine `c` stays representable, every intermediate step included.
pub open spec fn rotate_ok(a: V3, s: int, c: int) -> bool {
    &&& in64((SCALE as int) - c)
    &&& in64(smul(a.x, a.x))
    &&& in64((SCALE as int) - smul(a.x, a.x))
    &&& in64(smul((SCALE as int) - smul(a.x, a.x), c))
    &&& in64(smul(a.x, a.x) + smul((SCALE as int) - smul(a.x, a.x), c))
    &&& in64(smul(a.y, a.y))
    &&& in64((SCALE as int) - smul(a.y, a.y))
    &&& in64(smul((SCALE as int) - smul(a.y, a.y), c))
    &&& in64(smul(a.y, a.y) + smul((SCALE as int) - smul(a.y, a.y), c))
    &&& in64(smul(a.z, a.z))
    &&& in64((SCALE as int) - smul(a.z, a.z))
    &&& in64(smul((SCALE as int) - smul(a.z, a.z), c))
    &&& in64(smul(a.z, a.z) + smul((SCALE as int) - smul(a.z, a.z), c))
    &&& in64(smul(a.x, a.y))
    &&& in64(smul(smul(a.x, a.y), (SCALE as int) - c))
    &&& in64(smul(a.z, s))
    &&& in64(smul(smul(a.x, a.y), (SCALE as int) - c) - smul(a.z, s))
    &&& in64(smul(a.x, a.z))
    &&& in64(smul(smul(a.x, a.z), (SCALE as int) - c))
    &&& in64(smul(a.y, s))
    &&& in64(smul(smul(a.x, a.z), (SCALE as int) - c) + smul(a.y, s))
    &&& in64(smul(a.y, a.x))
    &&& in64(smul(smul(a.y, a.x), (SCALE as int) - c))
    &&& in64(smul(smul(a.y, a.x), (SCALE as int) - c) + smul(a.z, s))
    &&& in64(smul(a.y, a.z))
    &&& in64(smul(smul(a.y, a.z), (SCALE as int) - c))
    &&& in64(smul(a.x, s))
    &&& in64(smul(smul(a.y, a.z), (SCALE as int) - c) - smul(a.x, s))
    &&& in64(smul(a.z, a.x))
    &&& in64(smul(smul(a.z, a.x), (SCALE as int) - c))
    &&& in64(smul(smul(a.z, a.x), (SCALE as int) - c) - smul(a.y, s))
    &&& in64(smul(a.z, a.y))
    &&& in64(smul(smul(a.z, a.y), (SCALE as int) - c))
    &&& in64(smul(smul(a.z, a.y), (SCALE as int) - c) + smul(a.x, s))
}

impl Mtx4 {
    /// Construct a matrix representing rotation about the given axis,
    /// from the sine and cosine of the rotation angle (Rodrigues'
    /// rotation formula).
    ///
    /// Note that for inverses, it is much faster to use the identity
    /// `rotate(s, c, axis).transpose() == rotate(s, c, axis).inverse()`.
    pub fn rotate(sin_theta: Scalar, cos_theta: Scalar, axis: Vec3) -> (r: Self)
        requires
            rotate_ok(axis@, sin_theta@, cos_theta@),
        ensures
            r.at(0, 0) == (smul(axis@.x, axis@.x) + smul((SCALE as int) - smul(axis@.x, axis@.x), cos_theta@)),
            r.at(0, 1) == (smul(smul(axis@.x, axis@.y), (SCALE as int) - cos_theta@) - smul(axis@.z, sin_theta@)),
            r.at(0, 2) == (smul(smul(axis@.x, axis@.z), (SCALE as int) - cos_theta@) + smul(axis@.y, sin_theta@)),
            r.at(1, 0) == (smul(smul(axis@.y, axis@.x), (SCALE as int) - cos_theta@) + smul(axis@.z, sin_theta@)),
            r.at(1, 1) == (smul(axis@.y, axis@.y) + smul((SCALE as int) - smul(axis@.y, axis@.y), cos_theta@)),
            r.at(1, 2) == (smul(smul(axis@.y, axis@.z), (SCALE as int) - cos_theta@) - smul(axis@.x, sin_theta@)),
            r.at(2, 0) == (smul(smul(axis@.z, axis@.x), (SCALE as int) - cos_theta@) - smul(axis@.y, sin_theta@)),
            r.at(2, 1) == (smul(smul(axis@.z, axis@.y), (SCALE as int) - cos_theta@) + smul(axis@.x, sin_theta@)),
            r.at(2, 2) == (smul(axis@.z, axis@.z) + smul((SCALE as int) - smul(axis@.z, axis@.z), cos_theta@)),
            r.at(3, 0) == 0,
            r.at(0, 3) == 0,
            r.at(3, 1) == 0,
            r.at(1, 3) == 0,
            r.at(3, 2) == 0,
            r.at(2, 3) == 0,
            r.at(3, 3) == SCALE as int,
    {
        let one = Scalar::one();
        let zero = Scalar::zero();
        let ax = axis.x;
        let ay = axis.y;
        let az = axis.z;
        let omc = one.sub(cos_theta);

        let xx = ax.mul(ax);
        let yy = ay.mul(ay);
        let zz = az.mul(az);

        let d00 = xx.add(one.sub(xx).mul(cos_theta));
        let d01 = ax.mul(ay).mul(omc).sub(az.mul(sin_theta));
        let d02 = ax.mul(az).mul(omc).add(ay.mul(sin_theta));
        let d10 = ay.mul(ax).mul(omc).add(az.mul(sin_theta));
        let d11 = yy.add(one.sub(yy).mul(cos_theta));
        let d12 = ay.mul(az).mul(omc).sub(ax.mul(sin_theta));
        let d20 = az.mul(ax).mul(omc).sub(ay.mul(sin_theta));
        let d21 = az.mul(ay).mul(omc).add(ax.mul(sin_theta));
        let d22 = zz.add(one.sub(zz).mul(cos_theta));

        Self {
            rows: [
                [d00, d01, d02, zero],
                [d10, d11, d12, zero],
                [d20, d21, d22, zero],
                [zero, zero, zero, one],
            ],
        }
    }
}

/// How far an entry of the product of a matrix and its computed inverse
/// may stray from the identity, in fixed-point units: `2^-19`.
pub const INV_TOLERANCE: i64 = 0x2000;



/// Forward elimination of column 0: move the largest-magnitude entry
/// of the column (at or below the diagonal) onto the diagonal, then
/// clear the column below it. `None` for an all-zero pivot candidate
/// set and when a value leaves the representation.
pub open spec fn forward_col0_spec(rs: (Seq<int>, Seq<int>, Seq<int>, Seq<int>)) -> Option<
    (Seq<int>, Seq<int>, Seq<int>, Seq<int>),
> {
    let s0 = if iabs(rs.1[0]) > iabs(rs.0[0]) { (rs.1, rs.0, rs.2, rs.3) } else { rs };
    let s1 = if iabs(s0.2[0]) > iabs(s0.0[0]) { (s0.2, s0.1, s0.0, s0.3) } else { s0 };
    let s2 = if iabs(s1.3[0]) > iabs(s1.0[0]) { (s1.3, s1.1, s1.2, s1.0) } else { s1 };
    if s2.0[0] == 0 {
        None
    } else {
        if !in64(sdiv(s2.1[0], s2.0[0])) {
            None
        } else {
            match elim_row_spec(s2.1, s2.0, sdiv(s2.1[0], s2.0[0]), 0) {
                None => None,
                Some(n1) => {
                    if !in64(sdiv(s2.2[0], s2.0[0])) {
                        None
                    } else {
                        match elim_row_spec(s2.2, s2.0, sdiv(s2.2[0], s2.0[0]), 0) {
                            None => None,
                            Some(n2) => {
                                if !in64(sdiv(s2.3[0], s2.0[0])) {
                                    None
                                } else {
                                    match elim_row_spec(s2.3, s2.0, sdiv(s2.3[0], s2.0[0]), 0) {
                                        None => None,
                                        Some(n3) => {
                                            Some((s2.0, n1, n2, n3))
                                        },
                                    }
                                }
                            },
                        }
                    }
                },
            }
        }
    }
}

/// Execute [`forward_col0_spec`].
fn forward_col0(rs: ([Scalar; 8], [Scalar; 8], [Scalar; 8], [Scalar; 8])) -> (r: Option<
    ([Scalar; 8], [Scalar; 8], [Scalar; 8], [Scalar; 8]),
>)
    ensures
        match r {
            Some(out) => forward_col0_spec((rowv(rs.0), rowv(rs.1), rowv(rs.2), rowv(rs.3)))
                == Some((rowv(out.0), rowv(out.1), rowv(out.2), rowv(out.3))),
            None => forward_col0_spec((rowv(rs.0), rowv(rs.1), rowv(rs.2), rowv(rs.3))) is None,
        },
{
    let s0 = if rs.1[0].abs_gt(rs.0[0]) { (rs.1, rs.0, rs.2, rs.3) } else { rs };
    let s1 = if s0.2[0].abs_gt(s0.0[0]) { (s0.2, s0.1, s0.0, s0.3) } else { s0 };
    let s2 = if s1.3[0].abs_gt(s1.0[0]) { (s1.3, s1.1, s1.2, s1.0) } else { s1 };
    if s2.0[0].is_zero() {
        return None;
    }
    let f1 = match s2.1[0].checked_div(s2.0[0]) {
        Some(v) => v,
        None => { return None; },
    };
    let n1 = match eliminate_row(s2.1, s2.0, f1, 0) {
        Some(v) => v,
        None => { return None; },
    };
    let f2 = match s2.2[0].checked_div(s2.0[0]) {
        Some(v) => v,
        None => { return None; },
    };
    let n2 = match eliminate_row(s2.2, s2.0, f2, 0) {
        Some(v) => v,
        None => { return None; },
    };
    let f3 = match s2.3[0].checked_div(s2.0[0]) {
        Some(v) => v,
        None => { return None; },
    };
    let n3 = match eliminate_row(s2.3, s2.0, f3, 0) {
        Some(v) => v,
        None => { return None; },
    };
    Some((s2.0, n1, n2, n3))
}

/// Forward elimination of column 1: move the largest-magnitude entry
/// of the column (at or below the diagonal) onto the diagonal, then
/// clear the column below it. `None` for an all-zero pivot candidate
/// set and when a value leaves the representation.
pub open spec fn forward_col1_spec(rs: (Seq<int>, Seq<int>, Seq<int>, Seq<int>)) -> Option<
    (Seq<int>, Seq<int>, Seq<int>, Seq<int>),
> {
    let s0 = if iabs(rs.2[1]) > iabs(rs.1[1]) { (rs.0, rs.2, rs.1, rs.3) } else { rs };
    let s1 = if iabs(s0.3[1]) > iabs(s0.1[1]) { (s0.0, s0.3, s0.2, s0.1) } else { s0 };
    if s1.1[1] == 0 {
        None
    } else {
        if !in64(sdiv(s1.2[1], s1.1[1])) {
            None
        } else {
            match elim_row_spec(s1.2, s1.1, sdiv(s1.2[1], s1.1[1]), 1) {
                None => None,
                Some(n2) => {
                    if !in64(sdiv(s1.3[1], s1.1[1])) {
                        None
                    } else {
                        match elim_row_spec(s1.3, s1.1, sdiv(s1.3[1], s1.1[1]), 1) {
                            None => None,
                            Some(n3) => {
                                Some((s1.0, s1.1, n2, n3))
                            },
                        }
                    }
                },
            }
        }
    }
}

/// Execute [`forward_col1_spec`].
fn forward_col1(rs: ([Scalar; 8], [Scalar; 8], [Scalar; 8], [Scalar; 8])) -> (r: Option<
    ([Scalar; 8], [Scalar; 8], [Scalar; 8], [Scalar; 8]),
>)
    ensures
        match r {
            Some(out) => forward_col1_spec((rowv(rs.0), rowv(rs.1), rowv(rs.2), rowv(rs.3)))
                == Some((rowv(out.0), rowv(out.1), rowv(out.2), rowv(out.3))),
            None => forward_col1_spec((rowv(rs.0), rowv(rs.1), rowv(rs.2), rowv(rs.3))) is None,
        },
{
    let s0 = if rs.2[1].abs_gt(rs.1[1]) { (rs.0, rs.2, rs.1, rs.3) } else { rs };
    let s1 = if s0.3[1].abs_gt(s0.1[1]) { (s0.0, s0.3, s0.2, s0.1) } else { s0 };
    if s1.1[1].is_zero() {
        return None;
    }
    let f2 = match s1.2[1].checked_div(s1.1[1]) {
        Some(v) => v,
        None => { return None; },
    };
    let n2 = match eliminate_row(s1.2, s1.1, f2, 1) {
        Some(v) => v,
        None => { return None; },
    };
    let f3 = match s1.3[1].checked_div(s1.1[1]) {
        Some(v) => v,
        None => { return None; },
    };
    let n3 = match eliminate_row(s1.3, s1.1, f3, 1) {
        Some(v) => v,
        None => { return None; },
    };
    Some((s1.0, s1.1, n2, n3))
}

/// Forward elimination of column 2: move the largest-magnitude entry
/// of the column (at or below the diagonal) onto the diagonal, then
/// clear the column below it. `None` for an all-zero pivot candidate
/// set and when a value leaves the representation.
pub open spec fn forward_col2_spec(rs: (Seq<int>, Seq<int>, Seq<int>, Seq<int>)) -> Option<
    (Seq<int>, Seq<int>, Seq<int>, Seq<int>),
> {
    let s0 = if iabs(rs.3[2]) > iabs(rs.2[2]) { (rs.0, rs.1, rs.3, rs.2) } else { rs };
    if s0.2[2] == 0 {
        None
    } else {
        if !in64(sdiv(s0.3[2], s0.2[2])) {
            None
        } else {
            match elim_row_spec(s0.3, s0.2, sdiv(s0.3[2], s0.2[2]), 2) {
                None => None,
                Some(n3) => {
                    Some((s0.0, s0.1, s0.2, n3))
                },
            }
        }
    }
}

/// Execute [`forward_col2_spec`].
fn forward_col2(rs: ([Scalar; 8], [Scalar; 8], [Scalar; 8], [Scalar; 8])) -> (r: Option<
    ([Scalar; 8], [Scalar; 8], [Scalar; 8], [Scalar; 8]),
>)
    ensures
        match r {
            Some(out) => forward_col2_spec((rowv(rs.0), rowv(rs.1), rowv(rs.2), rowv(rs.3)))
                == Some((rowv(out.0), rowv(out.1), rowv(out.2), rowv(out.3))),
            None => forward_col2_spec((rowv(rs.0), rowv(rs.1), rowv(rs.2), rowv(rs.3))) is None,
        },
{
    let s0 = if rs.3[2].abs_gt(rs.2[2]) { (rs.0, rs.1, rs.3, rs.2) } else { rs };
    if s0.2[2].is_zero() {
        return None;
    }
    let f3 = match s0.3[2].checked_div(s0.2[2]) {
        Some(v) => v,
        None => { return None; },
    };
    let n3 = match eliminate_row(s0.3, s0.2, f3, 2) {
        Some(v) => v,
        None => { return None; },
    };
    Some((s0.0, s0.1, s0.2, n3))
}

/// Forward elimination of column 3: move the largest-magnitude entry
/// of the column (at or below the diagonal) onto the diagonal, then
/// clear the column below it. `None` for an all-zero pivot candidate
/// set and when a value leaves the representation.
pub open spec fn forward_col3_spec(rs: (Seq<int>, Seq<int>, Seq<int>, Seq<int>)) -> Option<
    (Seq<int>, Seq<int>, Seq<int>, Seq<int>),
> {
    if rs.3[3] == 0 {
        None
    } else {
        Some((rs.0, rs.1, rs.2, rs.3))
    }
}

/// Execute [`forward_col3_spec`].
fn forward_col3(rs: ([Scalar; 8], [Scalar; 8], [Scalar; 8], [Scalar; 8])) -> (r: Option<
    ([Scalar; 8], [Scalar; 8], [Scalar; 8], [Scalar; 8]),
>)
    ensures
        match r {
            Some(out) => forward_col3_spec((rowv(rs.0), rowv(rs.1), rowv(rs.2), rowv(rs.3)))
                == Some((rowv(out.0), rowv(out.1), rowv(out.2), rowv(out.3))),
            None => forward_col3_spec((rowv(rs.0), rowv(rs.1), rowv(rs.2), rowv(rs.3))) is None,
        },
{
    if rs.3[3].is_zero() {
        return None;
    }
    Some((rs.0, rs.1, rs.2, rs.3))
}

/// Back substitution of row 3: scale the row so its diagonal entry
/// becomes one, then clear the column above it. `None` for a zero
/// diagonal and when a value leaves the representation.
pub open spec fn back_row3_spec(rs: (Seq<int>, Seq<int>, Seq<int>, Seq<int>)) -> Option<
    (Seq<int>, Seq<int>, Seq<int>, Seq<int>),
> {
    match div_row_spec(rs.3, rs.3[3]) {
        None => None,
        Some(d3) => {
            match elim_full_spec(rs.0, d3, rs.0[3]) {
                None => None,
                Some(n0) => {
                    match elim_full_spec(rs.1, d3, rs.1[3]) {
                        None => None,
                        Some(n1) => {
                            match elim_full_spec(rs.2, d3, rs.2[3]) {
                                None => None,
                                Some(n2) => {
                                    Some((n0, n1, n2, d3))
                                },
                            }
                        },
                    }
                },
            }
        },
    }
}

/// Execute [`back_row3_spec`].
fn back_row3(rs: ([Scalar; 8], [Scalar; 8], [Scalar; 8], [Scalar; 8])) -> (r: Option<
    ([Scalar; 8], [Scalar; 8], [Scalar; 8], [Scalar; 8]),
>)
    ensures
        match r {
            Some(out) => back_row3_spec((rowv(rs.0), rowv(rs.1), rowv(rs.2), rowv(rs.3)))
                == Some((rowv(out.0), rowv(out.1), rowv(out.2), rowv(out.3))),
            None => back_row3_spec((rowv(rs.0), rowv(rs.1), rowv(rs.2), rowv(rs.3))) is None,
        },
{
    let d3 = match divide_row(rs.3, rs.3[3]) {
        Some(v) => v,
        None => { return None; },
    };
    let n0 = match eliminate_row_full(rs.0, d3, rs.0[3]) {
        Some(v) => v,
        None => { return None; },
    };
    let n1 = match eliminate_row_full(rs.1, d3, rs.1[3]) {
        Some(v) => v,
        None => { return None; },
    };
    let n2 = match eliminate_row_full(rs.2, d3, rs.2[3]) {
        Some(v) => v,
        None => { return None; },
    };
    Some((n0, n1, n2, d3))
}

/// Back substitution of row 2: scale the row so its diagonal entry
/// becomes one, then clear the column above it. `None` for a zero
/// diagonal and when a value leaves the representation.
pub open spec fn back_row2_spec(rs: (Seq<int>, Seq<int>, Seq<int>, Seq<int>)) -> Option<
    (Seq<int>, Seq<int>, Seq<int>, Seq<int>),
> {
    match div_row_spec(rs.2, rs.2[2]) {
        None => None,
        Some(d2) => {
            match elim_full_spec(rs.0, d2, rs.0[2]) {
                None => None,
                Some(n0) => {
                    match elim_full_spec(rs.1, d2, rs.1[2]) {
                        None => None,
                        Some(n1) => {
                            Some((n0, n1, d2, rs.3))
                        },
                    }
                },
            }
        },
    }
}

/// Execute [`back_row2_spec`].
fn back_row2(rs: ([Scalar; 8], [Scalar; 8], [Scalar; 8], [Scalar; 8])) -> (r: Option<
    ([Scalar; 8], [Scalar; 8], [Scalar; 8], [Scalar; 8]),
>)
    ensures
        match r {
            Some(out) => back_row2_spec((rowv(rs.0), rowv(rs.1), rowv(rs.2), rowv(rs.3)))
                == Some((rowv(out.0), rowv(out.1), rowv(out.2), rowv(out.3))),
            None => back_row2_spec((rowv(rs.0), rowv(rs.1), rowv(rs.2), rowv(rs.3))) is None,
        },
{
    let d2 = match divide_row(rs.2, rs.2[2]) {
        Some(v) => v,
        None => { return None; },
    };
    let n0 = match eliminate_row_full(rs.0, d2, rs.0[2]) {
        Some(v) => v,
        None => { return None; },
    };
    let n1 = match eliminate_row_full(rs.1, d2, rs.1[2]) {
        Some(v) => v,
        None => { return None; },
    };
    Some((n0, n1, d2, rs.3))
}

/// Back substitution of row 1: scale the row so its diagonal entry
/// becomes one, then clear the column above it. `None` for a zero
/// diagonal and when a value leaves the representation.
pub open spec fn back_row1_spec(rs: (Seq<int>, Seq<int>, Seq<int>, Seq<int>)) -> Option<
    (Seq<int>, Seq<int>, Seq<int>, Seq<int>),
> {
    match div_row_spec(rs.1, rs.1[1]) {
        None => None,
        Some(d1) => {
            match elim_full_spec(rs.0, d1, rs.0[1]) {
                None => None,
                Some(n0) => {
                    Some((n0, d1, rs.2, rs.3))
                },
            }
        },
    }
}

/// Execute [`back_row1_spec`].
fn back_row1(rs: ([Scalar; 8], [Scalar; 8], [Scalar; 8], [Scalar; 8])) -> (r: Option<
    ([Scalar; 8], [Scalar; 8], [Scalar; 8], [Scalar; 8]),
>)
    ensures
        match r {
            Some(out) => back_row1_spec((rowv(rs.0), rowv(rs.1), rowv(rs.2), rowv(rs.3)))
                == Some((rowv(out.0), rowv(out.1), rowv(out.2), rowv(out.3))),
            None => back_row1_spec((rowv(rs.0), rowv(rs.1), rowv(rs.2), rowv(rs.3))) is None,
        },
{
    let d1 = match divide_row(rs.1, rs.1[1]) {
        Some(v) => v,
        None => { return None; },
    };
    let n0 = match eliminate_row_full(rs.0, d1, rs.0[1]) {
        Some(v) => v,
        None => { return None; },
    };
    Some((n0, d1, rs.2, rs.3))
}

/// Back substitution of row 0: scale the row so its diagonal entry
/// becomes one, then clear the column above it. `None` for a zero
/// diagonal and when a value leaves the representation.
pub open spec fn back_row0_spec(rs: (Seq<int>, Seq<int>, Seq<int>, Seq<int>)) -> Option<
    (Seq<int>, Seq<int>, Seq<int>, Seq<int>),
> {
    match div_row_spec(rs.0, rs.0[0]) {
        None => None,
        Some(d0) => {
            Some((d0, rs.1, rs.2, rs.3))
        },
    }
}

/// Execute [`back_row0_spec`].
fn back_row0(rs: ([Scalar; 8], [Scalar; 8], [Scalar; 8], [Scalar; 8])) -> (r: Option<
    ([Scalar; 8], [Scalar; 8], [Scalar; 8], [Scalar; 8]),
>)
    ensures
        match r {
            Some(out) => back_row0_spec((rowv(rs.0), rowv(rs.1), rowv(rs.2), rowv(rs.3)))
                == Some((rowv(out.0), rowv(out.1), rowv(out.2), rowv(out.3))),
            None => back_row0_spec((rowv(rs.0), rowv(rs.1), rowv(rs.2), rowv(rs.3))) is None,
        },
{
    let d0 = match divide_row(rs.0, rs.0[0]) {
        Some(v) => v,
        None => { return None; },
    };
    Some((d0, rs.1, rs.2, rs.3))
}

/// The augmented rows `[self | identity]` the elimination starts from.
pub open spec fn augmented_rows(m: Mtx4) -> (Seq<int>, Seq<int>, Seq<int>, Seq<int>) {
    (
        seq![m.at(0, 0), m.at(0, 1), m.at(0, 2), m.at(0, 3), SCALE as int, 0int, 0int, 0int],
        seq![m.at(1, 0), m.at(1, 1), m.at(1, 2), m.at(1, 3), 0int, SCALE as int, 0int, 0int],
        seq![m.at(2, 0), m.at(2, 1), m.at(2, 2), m.at(2, 3), 0int, 0int, SCALE as int, 0int],
        seq![m.at(3, 0), m.at(3, 1), m.at(3, 2), m.at(3, 3), 0int, 0int, 0int, SCALE as int],
    )
}

/// The full Gauss-Jordan run on `m`: the four forward eliminations with
/// partial pivoting, then the four back substitutions. `None` exactly
/// when some column offers no nonzero pivot or a value leaves the
/// representation along the way.
pub open spec fn gj_rows(m: Mtx4) -> Option<(Seq<int>, Seq<int>, Seq<int>, Seq<int>)> {
    let g = forward_col0_spec(augmented_rows(m));
    let g1 = match g {
        None => None,
        Some(rs) => forward_col1_spec(rs),
    };
    let g2 = match g1 {
        None => None,
        Some(rs) => forward_col2_spec(rs),
    };
    let g3 = match g2 {
        None => None,
        Some(rs) => forward_col3_spec(rs),
    };
    let g4 = match g3 {
        None => None,
        Some(rs) => back_row3_spec(rs),
    };
    let g5 = match g4 {
        None => None,
        Some(rs) => back_row2_spec(rs),
    };
    let g6 = match g5 {
        None => None,
        Some(rs) => back_row1_spec(rs),
    };
    let g7 = match g6 {
        None => None,
        Some(rs) => back_row0_spec(rs),
    };
    g7
}

/// The inverse candidate the elimination produces: the right half of
/// the reduced augmented rows.
pub open spec fn gj_candidate(m: Mtx4) -> Option<Mtx4> {
    match gj_rows(m) {
        None => None,
        Some(rs) => Some(
            Mtx4 {
                rows: [
                    [Scalar { bits: rs.0[4] as i64 }, Scalar { bits: rs.0[5] as i64 }, Scalar { bits: rs.0[6] as i64 }, Scalar { bits: rs.0[7] as i64 }],
                    [Scalar { bits: rs.1[4] as i64 }, Scalar { bits: rs.1[5] as i64 }, Scalar { bits: rs.1[6] as i64 }, Scalar { bits: rs.1[7] as i64 }],
                    [Scalar { bits: rs.2[4] as i64 }, Scalar { bits: rs.2[5] as i64 }, Scalar { bits: rs.2[6] as i64 }, Scalar { bits: rs.2[7] as i64 }],
                    [Scalar { bits: rs.3[4] as i64 }, Scalar { bits: rs.3[5] as i64 }, Scalar { bits: rs.3[6] as i64 }, Scalar { bits: rs.3[7] as i64 }],
                ],
            },
        ),
    }
}

/// Whether one entry of `a * b` is computable and within
/// [`INV_TOLERANCE`] of the identity.
pub open spec fn entry_near_spec(a: Mtx4, b: Mtx4, i: int, j: int) -> bool {
    &&& mul_entry_ok(a, b, i, j)
    &&& in64(mul_entry(a, b, i, j) - ident_entry(i, j))
    &&& iabs(mul_entry(a, b, i, j) - ident_entry(i, j)) <= INV_TOLERANCE as int
}

/// Whether every entry of `a * b` is computable and within
/// [`INV_TOLERANCE`] of the identity.
pub open spec fn all_near(a: Mtx4, b: Mtx4) -> bool {
    forall|i: int, j: int| 0 <= i < 4 && 0 <= j < 4 ==> #[trigger] entry_near_spec(a, b, i, j)
}

impl Mtx4 {
    /// The 4x8 augmented rows `[self | identity]`.
    fn create_augmented(&self) -> (r: ([Scalar; 8], [Scalar; 8], [Scalar; 8], [Scalar; 8]))
        ensures
            rowv(r.0) == augmented_rows(*self).0,
            rowv(r.1) == augmented_rows(*self).1,
            rowv(r.2) == augmented_rows(*self).2,
            rowv(r.3) == augmented_rows(*self).3,
    {
        let one = Scalar::one();
        let zero = Scalar::zero();
        let aug = (
            [self.rows[0][0], self.rows[0][1], self.rows[0][2], self.rows[0][3], one, zero, zero, zero],
            [self.rows[1][0], self.rows[1][1], self.rows[1][2], self.rows[1][3], zero, one, zero, zero],
            [self.rows[2][0], self.rows[2][1], self.rows[2][2], self.rows[2][3], zero, zero, one, zero],
            [self.rows[3][0], self.rows[3][1], self.rows[3][2], self.rows[3][3], zero, zero, zero, one],
        );
        proof {
            assert(rowv(aug.0) =~= augmented_rows(*self).0);
            assert(rowv(aug.1) =~= augmented_rows(*self).1);
            assert(rowv(aug.2) =~= augmented_rows(*self).2);
            assert(rowv(aug.3) =~= augmented_rows(*self).3);
        }
        aug
    }

    /// Whether one entry of `self * other` is computable and lies
    /// within [`INV_TOLERANCE`] of the identity.
    fn entry_near(a: &Self, b: &Self, i: usize, j: usize) -> (r: bool)
        requires
            i < 4,
            j < 4,
        ensures
            r == entry_near_spec(*a, *b, i as int, j as int),
    {
        let p0 = match a.rows[i][0].checked_mul(b.rows[0][j]) {
            Some(v) => v,
            None => { return false; },
        };
        let p1 = match a.rows[i][1].checked_mul(b.rows[1][j]) {
            Some(v) => v,
            None => { return false; },
        };
        let p2 = match a.rows[i][2].checked_mul(b.rows[2][j]) {
            Some(v) => v,
            None => { return false; },
        };
        let p3 = match a.rows[i][3].checked_mul(b.rows[3][j]) {
            Some(v) => v,
            None => { return false; },
        };
        let s1 = match p0.checked_add(p1) {
            Some(v) => v,
            None => { return false; },
        };
        let s2 = match s1.checked_add(p2) {
            Some(v) => v,
            None => { return false; },
        };
        let s3 = match s2.checked_add(p3) {
            Some(v) => v,
            None => { return false; },
        };
        let ident = if i == j {
            Scalar::one()
        } else {
            Scalar::zero()
        };
        let diff = match s3.checked_sub(ident) {
            Some(v) => v,
            None => { return false; },
        };
        !diff.abs_gt(Scalar::from_bits(INV_TOLERANCE))
    }

    /// Whether every entry of `self * other` is computable and lies
    /// within [`INV_TOLERANCE`] of the identity.
    fn near_inverse(&self, other: &Self) -> (r: bool)
        ensures
            r == all_near(*self, *other),
    {
        let mut i: usize = 0;
        while i < 4
            invariant
                i <= 4,
                forall|a: int, b: int| 0 <= a < i && 0 <= b < 4 ==> #[trigger] entry_near_spec(
                    *self,
                    *other,
                    a,
                    b,
                ),
            decreases 4 - i,
        {
            let mut j: usize = 0;
            while j < 4
                invariant
                    i < 4,
                    j <= 4,
                    forall|a: int, b: int| 0 <= a < i && 0 <= b < 4 ==> #[trigger] entry_near_spec(
                        *self,
                        *other,
                        a,
                        b,
                    ),
                    forall|b: int| 0 <= b < j ==> #[trigger] entry_near_spec(
                        *self,
                        *other,
                        i as int,
                        b,
                    ),
                decreases 4 - j,
            {
                if !Self::entry_near(self, other, i, j) {
                    proof {
                        assert(!entry_near_spec(*self, *other, i as int, j as int));
                    }
                    return false;
                }
                j += 1;
            }
            i += 1;
        }
        true
    }

    /// Construct a matrix that is the inverse of this matrix.
    ///
    /// Uses Gauss-Jordan elimination with partial pivoting on the
    /// augmented rows `[self | identity]` — the forward pass brings the
    /// largest-magnitude candidate onto each pivot and clears the
    /// column below it, the backward pass scales each pivot row and
    /// clears above — then checks the candidate by multiplying it back
    /// in both orders. The whole run is mirrored by [`gj_rows`], so the
    /// contract says exactly when a value is returned: the elimination
    /// must complete — no column without a usable pivot, no value
    /// leaving the representation — and both products must lie within
    /// [`INV_TOLERANCE`] of the identity, entry by entry. Otherwise the
    /// matrix is singular or numerically degenerate and the result is
    /// `None`.
    pub fn inverse(&self) -> (r: Option<Self>)
        ensures
            match r {
                Some(inv) => {
                    &&& gj_candidate(*self) == Some(inv)
                    &&& all_near(*self, inv)
                    &&& all_near(inv, *self)
                    &&& near_identity(*self, inv, INV_TOLERANCE as int)
                    &&& near_identity(inv, *self, INV_TOLERANCE as int)
                },
                None => match gj_candidate(*self) {
                    None => true,
                    Some(c) => !(all_near(*self, c) && all_near(c, *self)),
                },
            },
    {
        let aug = self.create_augmented();
        let aug = match forward_col0(aug) {
            Some(v) => v,
            None => { return None; },
        };
        let aug = match forward_col1(aug) {
            Some(v) => v,
            None => { return None; },
        };
        let aug = match forward_col2(aug) {
            Some(v) => v,
            None => { return None; },
        };
        let aug = match forward_col3(aug) {
            Some(v) => v,
            None => { return None; },
        };
        let aug = match back_row3(aug) {
            Some(v) => v,
            None => { return None; },
        };
        let aug = match back_row2(aug) {
            Some(v) => v,
            None => { return None; },
        };
        let aug = match back_row1(aug) {
            Some(v) => v,
            None => { return None; },
        };
        let aug = match back_row0(aug) {
            Some(v) => v,
            None => { return None; },
        };
        let cand = Self {
            rows: [
                [aug.0[4], aug.0[5], aug.0[6], aug.0[7]],
                [aug.1[4], aug.1[5], aug.1[6], aug.1[7]],
                [aug.2[4], aug.2[5], aug.2[6], aug.2[7]],
                [aug.3[4], aug.3[5], aug.3[6], aug.3[7]],
            ],
        };
        proof {
            assert(gj_candidate(*self) == Some(cand));
        }
        if self.near_inverse(&cand) && cand.near_inverse(self) {
            proof {
                assert forall|i: int, j: int| 0 <= i < 4 && 0 <= j < 4 implies iabs(
                    #[trigger] mul_entry(*self, cand, i, j) - ident_entry(i, j),
                ) <= INV_TOLERANCE as int by {
                    assert(entry_near_spec(*self, cand, i, j));
                };
                assert forall|i: int, j: int| 0 <= i < 4 && 0 <= j < 4 implies iabs(
                    #[trigger] mul_entry(cand, *self, i, j) - ident_entry(i, j),
                ) <= INV_TOLERANCE as int by {
                    assert(entry_near_spec(cand, *self, i, j));
                };
            }
            Some(cand)
        } else {
            None
        }
    }
}

} // verus!
