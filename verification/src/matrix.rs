//! 4x4 matrices of fixed-point scalars.
//!
//! `Matrix` stores sixteen scalars row-major, `m11` to `m44`, row first.
//! Two conventions appear in the library: the composition math works on
//! matrices in the column-vector convention (a translation sits in the
//! fourth column), and the stored result of the compositor is that matrix
//! transposed, so that a stored translation sits in the fourth row.

use vstd::prelude::*;
use crate::scalar::{SCALE, fmul_s, dot4};

verus! {

/// One 4x4 matrix of fixed-point scalars, row-major.
#[derive(Clone, Copy, Debug, PartialEq, Eq, Structural)]
pub struct Matrix {
    pub m11: i64, pub m12: i64, pub m13: i64, pub m14: i64,
    pub m21: i64, pub m22: i64, pub m23: i64, pub m24: i64,
    pub m31: i64, pub m32: i64, pub m33: i64, pub m34: i64,
    pub m41: i64, pub m42: i64, pub m43: i64, pub m44: i64,
}

/// The mathematical value of a `Matrix`: the same sixteen entries as
/// unbounded integers.
pub struct MatrixModel {
    pub m11: int, pub m12: int, pub m13: int, pub m14: int,
    pub m21: int, pub m22: int, pub m23: int, pub m24: int,
    pub m31: int, pub m32: int, pub m33: int, pub m34: int,
    pub m41: int, pub m42: int, pub m43: int, pub m44: int,
}

impl View for Matrix {
    type V = MatrixModel;

    open spec fn view(&self) -> MatrixModel {
        MatrixModel {
            m11: self.m11 as int, m12: self.m12 as int, m13: self.m13 as int, m14: self.m14 as int,
            m21: self.m21 as int, m22: self.m22 as int, m23: self.m23 as int, m24: self.m24 as int,
            m31: self.m31 as int, m32: self.m32 as int, m33: self.m33 as int, m34: self.m34 as int,
            m41: self.m41 as int, m42: self.m42 as int, m43: self.m43 as int, m44: self.m44 as int,
        }
    }
}

/// Every entry of `m` has magnitude at most `k`.
pub open spec fn bounded(m: MatrixModel, k: int) -> bool {
    &&& -k <= m.m11 <= k && -k <= m.m12 <= k && -k <= m.m13 <= k && -k <= m.m14 <= k
    &&& -k <= m.m21 <= k && -k <= m.m22 <= k && -k <= m.m23 <= k && -k <= m.m24 <= k
    &&& -k <= m.m31 <= k && -k <= m.m32 <= k && -k <= m.m33 <= k && -k <= m.m34 <= k
    &&& -k <= m.m41 <= k && -k <= m.m42 <= k && -k <= m.m43 <= k && -k <= m.m44 <= k
}

/// The identity: ones (that is, `SCALE`) on the diagonal, zero elsewhere.
pub open spec fn identity_model() -> MatrixModel {
    MatrixModel {
        m11: SCALE as int, m12: 0, m13: 0, m14: 0,
        m21: 0, m22: SCALE as int, m23: 0, m24: 0,
        m31: 0, m32: 0, m33: SCALE as int, m34: 0,
        m41: 0, m42: 0, m43: 0, m44: SCALE as int,
    }
}

/// The transpose: entry `(r, c)` of the result is entry `(c, r)` of `m`.
pub open spec fn transpose_model(m: MatrixModel) -> MatrixModel {
    MatrixModel {
        m11: m.m11, m12: m.m21, m13: m.m31, m14: m.m41,
        m21: m.m12, m22: m.m22, m23: m.m32, m24: m.m42,
        m31: m.m13, m32: m.m23, m33: m.m33, m34: m.m43,
        m41: m.m14, m42: m.m24, m43: m.m34, m44: m.m44,
    }
}

/// The fixed-point matrix product: entry `(r, c)` is the four-term dot
/// product of row `r` of `a` with column `c` of `b`, each term a fixed-point
/// product rounded toward zero.
pub open spec fn mat_mul_model(a: MatrixModel, b: MatrixModel) -> MatrixModel {
    MatrixModel {
        m11: fmul_s(a.m11, b.m11) + fmul_s(a.m12, b.m21) + fmul_s(a.m13, b.m31) + fmul_s(a.m14, b.m41),
        m12: fmul_s(a.m11, b.m12) + fmul_s(a.m12, b.m22) + fmul_s(a.m13, b.m32) + fmul_s(a.m14, b.m42),
        m13: fmul_s(a.m11, b.m13) + fmul_s(a.m12, b.m23) + fmul_s(a.m13, b.m33) + fmul_s(a.m14, b.m43),
        m14: fmul_s(a.m11, b.m14) + fmul_s(a.m12, b.m24) + fmul_s(a.m13, b.m34) + fmul_s(a.m14, b.m44),
        m21: fmul_s(a.m21, b.m11) + fmul_s(a.m22, b.m21) + fmul_s(a.m23, b.m31) + fmul_s(a.m24, b.m41),
        m22: fmul_s(a.m21, b.m12) + fmul_s(a.m22, b.m22) + fmul_s(a.m23, b.m32) + fmul_s(a.m24, b.m42),
        m23: fmul_s(a.m21, b.m13) + fmul_s(a.m22, b.m23) + fmul_s(a.m23, b.m33) + fmul_s(a.m24, b.m43),
        m24: fmul_s(a.m21, b.m14) + fmul_s(a.m22, b.m24) + fmul_s(a.m23, b.m34) + fmul_s(a.m24, b.m44),
        m31: fmul_s(a.m31, b.m11) + fmul_s(a.m32, b.m21) + fmul_s(a.m33, b.m31) + fmul_s(a.m34, b.m41),
        m32: fmul_s(a.m31, b.m12) + fmul_s(a.m32, b.m22) + fmul_s(a.m33, b.m32) + fmul_s(a.m34, b.m42),
        m33: fmul_s(a.m31, b.m13) + fmul_s(a.m32, b.m23) + fmul_s(a.m33, b.m33) + fmul_s(a.m34, b.m43),
        m34: fmul_s(a.m31, b.m14) + fmul_s(a.m32, b.m24) + fmul_s(a.m33, b.m34) + fmul_s(a.m34, b.m44),
        m41: fmul_s(a.m41, b.m11) + fmul_s(a.m42, b.m21) + fmul_s(a.m43, b.m31) + fmul_s(a.m44, b.m41),
        m42: fmul_s(a.m41, b.m12) + fmul_s(a.m42, b.m22) + fmul_s(a.m43, b.m32) + fmul_s(a.m44, b.m42),
        m43: fmul_s(a.m41, b.m13) + fmul_s(a.m42, b.m23) + fmul_s(a.m43, b.m33) + fmul_s(a.m44, b.m43),
        m44: fmul_s(a.m41, b.m14) + fmul_s(a.m42, b.m24) + fmul_s(a.m43, b.m34) + fmul_s(a.m44, b.m44),
    }
}

impl Matrix {
    /// The identity matrix.
    pub fn identity() -> (r: Matrix)
        ensures
            r@ == identity_model(),
    {
        Matrix {
            m11: SCALE, m12: 0, m13: 0, m14: 0,
            m21: 0, m22: SCALE, m23: 0, m24: 0,
            m31: 0, m32: 0, m33: SCALE, m34: 0,
            m41: 0, m42: 0, m43: 0, m44: SCALE,
        }
    }

    /// The transpose of `self`.
    pub fn transposed(&self) -> (r: Matrix)
        ensures
            r@ == transpose_model(self@),
    {
        Matrix {
            m11: self.m11, m12: self.m21, m13: self.m31, m14: self.m41,
            m21: self.m12, m22: self.m22, m23: self.m32, m24: self.m42,
            m31: self.m13, m32: self.m23, m33: self.m33, m34: self.m43,
            m41: self.m14, m42: self.m24, m43: self.m34, m44: self.m44,
        }
    }
}

/// The fixed-point product of two matrices whose entries are bounded by `ka`
/// and `kb`; the entries of the result are bounded by four times the
/// scaled-down product of the bounds.
pub(crate) fn matmul(a: &Matrix, b: &Matrix, Ghost(ka): Ghost<int>, Ghost(kb): Ghost<int>) -> (r: Matrix)
    requires
        0 <= ka,
        0 <= kb,
        bounded(a@, ka),
        bounded(b@, kb),
        ka * kb <= (SCALE as int) * (i64::MAX as int),
        4 * ((ka * kb) / (SCALE as int)) <= i64::MAX as int,
    ensures
        r@ == mat_mul_model(a@, b@),
        bounded(r@, 4 * ((ka * kb) / (SCALE as int))),
{
    Matrix {
        m11: dot4(a.m11, a.m12, a.m13, a.m14, b.m11, b.m21, b.m31, b.m41, Ghost(ka), Ghost(kb)),
        m12: dot4(a.m11, a.m12, a.m13, a.m14, b.m12, b.m22, b.m32, b.m42, Ghost(ka), Ghost(kb)),
        m13: dot4(a.m11, a.m12, a.m13, a.m14, b.m13, b.m23, b.m33, b.m43, Ghost(ka), Ghost(kb)),
        m14: dot4(a.m11, a.m12, a.m13, a.m14, b.m14, b.m24, b.m34, b.m44, Ghost(ka), Ghost(kb)),
        m21: dot4(a.m21, a.m22, a.m23, a.m24, b.m11, b.m21, b.m31, b.m41, Ghost(ka), Ghost(kb)),
        m22: dot4(a.m21, a.m22, a.m23, a.m24, b.m12, b.m22, b.m32, b.m42, Ghost(ka), Ghost(kb)),
        m23: dot4(a.m21, a.m22, a.m23, a.m24, b.m13, b.m23, b.m33, b.m43, Ghost(ka), Ghost(kb)),
        m24: dot4(a.m21, a.m22, a.m23, a.m24, b.m14, b.m24, b.m34, b.m44, Ghost(ka), Ghost(kb)),
        m31: dot4(a.m31, a.m32, a.m33, a.m34, b.m11, b.m21, b.m31, b.m41, Ghost(ka), Ghost(kb)),
        m32: dot4(a.m31, a.m32, a.m33, a.m34, b.m12, b.m22, b.m32, b.m42, Ghost(ka), Ghost(kb)),
        m33: dot4(a.m31, a.m32, a.m33, a.m34, b.m13, b.m23, b.m33, b.m43, Ghost(ka), Ghost(kb)),
        m34: dot4(a.m31, a.m32, a.m33, a.m34, b.m14, b.m24, b.m34, b.m44, Ghost(ka), Ghost(kb)),
        m41: dot4(a.m41, a.m42, a.m43, a.m44, b.m11, b.m21, b.m31, b.m41, Ghost(ka), Ghost(kb)),
        m42: dot4(a.m41, a.m42, a.m43, a.m44, b.m12, b.m22, b.m32, b.m42, Ghost(ka), Ghost(kb)),
        m43: dot4(a.m41, a.m42, a.m43, a.m44, b.m13, b.m23, b.m33, b.m43, Ghost(ka), Ghost(kb)),
        m44: dot4(a.m41, a.m42, a.m43, a.m44, b.m14, b.m24, b.m34, b.m44, Ghost(ka), Ghost(kb)),
    }
}

} // verus!
