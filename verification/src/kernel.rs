//! The batch composition kernel.
//!
//! Per descriptor the composed matrix is the product
//! `T_pos * R * T_pivot * S` in the column-vector convention — scale first,
//! then the negated-pivot shift, then the rotation about Z, then the
//! translation to the position — transposed into row-major storage, so that
//! the stored first row is the image of the local X axis and the stored
//! fourth row holds the translation.

use rayon::iter::IndexedParallelIterator;
use rayon::iter::IntoParallelRefIterator;
use rayon::iter::IntoParallelRefMutIterator;
use rayon::iter::ParallelIterator;
use vstd::prelude::*;
use crate::scalar::{SCALE, fmul, fmul_s, lemma_fmul_bound, lemma_fmul_one, lemma_fmul_zero, lemma_product_bound};
use crate::matrix::{Matrix, MatrixModel, mat_mul_model, transpose_model, matmul};
use crate::descriptor::{Transform, POS_LIMIT, ROT_LIMIT, SIZE_LIMIT, ORIGIN_LIMIT};

verus! {

/// A translation by `(x, y, 0)`, column-vector convention.
pub open spec fn translation_model(x: int, y: int) -> MatrixModel {
    MatrixModel {
        m11: SCALE as int, m12: 0, m13: 0, m14: x,
        m21: 0, m22: SCALE as int, m23: 0, m24: y,
        m31: 0, m32: 0, m33: SCALE as int, m34: 0,
        m41: 0, m42: 0, m43: 0, m44: SCALE as int,
    }
}

/// A rotation about the Z axis with cosine `c` and sine `s`, column-vector
/// convention.
pub open spec fn rotation_model(c: int, s: int) -> MatrixModel {
    MatrixModel {
        m11: c, m12: -s, m13: 0, m14: 0,
        m21: s, m22: c, m23: 0, m24: 0,
        m31: 0, m32: 0, m33: SCALE as int, m34: 0,
        m41: 0, m42: 0, m43: 0, m44: SCALE as int,
    }
}

/// A non-uniform scale by `(sx, sy, 1)`.
pub open spec fn scale_model(sx: int, sy: int) -> MatrixModel {
    MatrixModel {
        m11: sx, m12: 0, m13: 0, m14: 0,
        m21: 0, m22: sy, m23: 0, m24: 0,
        m31: 0, m32: 0, m33: SCALE as int, m34: 0,
        m41: 0, m42: 0, m43: 0, m44: SCALE as int,
    }
}

/// The X component of the pivot shift: `-origin_x * size_x`.
pub open spec fn pivot_x(t: Transform) -> int {
    fmul_s(-(t.origin_x as int), t.size_x as int)
}

/// The Y component of the pivot shift: `-origin_y * size_y`.
pub open spec fn pivot_y(t: Transform) -> int {
    fmul_s(-(t.origin_y as int), t.size_y as int)
}

/// The composed transform of one descriptor in the column-vector
/// convention: `T_pos * R * T_pivot * S`, multiplied left to right.
pub open spec fn compose_model(t: Transform) -> MatrixModel {
    mat_mul_model(
        mat_mul_model(
            mat_mul_model(
                translation_model(t.x as int, t.y as int),
                rotation_model(t.rot_cos as int, t.rot_sin as int),
            ),
            translation_model(pivot_x(t), pivot_y(t)),
        ),
        scale_model(t.size_x as int, t.size_y as int),
    )
}

/// What the compositor stores for one descriptor: the composed matrix
/// transposed into row-major row-vector storage.
pub open spec fn composed(t: Transform) -> MatrixModel {
    transpose_model(compose_model(t))
}

/// The stored matrix of one descriptor written out entry by entry: the
/// rotation columns scaled by the sizes in the upper-left block, a plain one
/// at the third diagonal place, and the pivot shift rotated and added to the
/// position in the fourth row.
pub open spec fn composed_closed(t: Transform) -> MatrixModel {
    MatrixModel {
        m11: fmul_s(t.rot_cos as int, t.size_x as int),
        m12: fmul_s(t.rot_sin as int, t.size_x as int),
        m13: 0,
        m14: 0,
        m21: fmul_s(-(t.rot_sin as int), t.size_y as int),
        m22: fmul_s(t.rot_cos as int, t.size_y as int),
        m23: 0,
        m24: 0,
        m31: 0,
        m32: 0,
        m33: SCALE as int,
        m34: 0,
        m41: fmul_s(t.rot_cos as int, pivot_x(t)) + fmul_s(-(t.rot_sin as int), pivot_y(t))
            + t.x as int,
        m42: fmul_s(t.rot_sin as int, pivot_x(t)) + fmul_s(t.rot_cos as int, pivot_y(t))
            + t.y as int,
        m43: 0,
        m44: SCALE as int,
    }
}

/// The product chain `T_pos * R * T_pivot * S`, transposed into storage,
/// equals the closed form above: only the eight entries that mix inputs
/// carry a rounded product, and every other entry is a constant or a plain
/// input.
pub proof fn lemma_composed_closed_form(t: Transform)
    ensures
        composed(t) == composed_closed(t),
{
    let s: int = SCALE as int;
    let c: int = t.rot_cos as int;
    let sn: int = t.rot_sin as int;
    let x: int = t.x as int;
    let y: int = t.y as int;
    let sx: int = t.size_x as int;
    let sy: int = t.size_y as int;
    let px: int = pivot_x(t);
    let py: int = pivot_y(t);
    lemma_fmul_one(c);
    lemma_fmul_one(sn);
    lemma_fmul_one(-sn);
    lemma_fmul_one(x);
    lemma_fmul_one(y);
    lemma_fmul_one(px);
    lemma_fmul_one(py);
    lemma_fmul_one(s);
    lemma_fmul_zero(c);
    lemma_fmul_zero(sn);
    lemma_fmul_zero(-sn);
    lemma_fmul_zero(x);
    lemma_fmul_zero(y);
    lemma_fmul_zero(px);
    lemma_fmul_zero(py);
    lemma_fmul_zero(s);
    lemma_fmul_zero(sx);
    lemma_fmul_zero(sy);
    lemma_fmul_zero(0);
    let a = mat_mul_model(translation_model(x, y), rotation_model(c, sn));
    assert(a == (MatrixModel {
        m11: c, m12: -sn, m13: 0, m14: x,
        m21: sn, m22: c, m23: 0, m24: y,
        m31: 0, m32: 0, m33: s, m34: 0,
        m41: 0, m42: 0, m43: 0, m44: s,
    }));
    let b = mat_mul_model(a, translation_model(px, py));
    assert(b == (MatrixModel {
        m11: c, m12: -sn, m13: 0, m14: fmul_s(c, px) + fmul_s(-sn, py) + x,
        m21: sn, m22: c, m23: 0, m24: fmul_s(sn, px) + fmul_s(c, py) + y,
        m31: 0, m32: 0, m33: s, m34: 0,
        m41: 0, m42: 0, m43: 0, m44: s,
    }));
    lemma_fmul_zero(b.m14);
    lemma_fmul_zero(b.m24);
    lemma_fmul_one(b.m14);
    lemma_fmul_one(b.m24);
    let d = mat_mul_model(b, scale_model(sx, sy));
    assert(d == (MatrixModel {
        m11: fmul_s(c, sx), m12: fmul_s(-sn, sy), m13: 0, m14: b.m14,
        m21: fmul_s(sn, sx), m22: fmul_s(c, sy), m23: 0, m24: b.m24,
        m31: 0, m32: 0, m33: s, m34: 0,
        m41: 0, m42: 0, m43: 0, m44: s,
    }));
}

/// The whole batch's result as a sequence: element `i` is the composed
/// matrix of descriptor `i`.
pub open spec fn composed_batch(ts: Seq<Transform>) -> Seq<MatrixModel> {
    Seq::new(ts.len(), |i: int| composed(ts[i]))
}

/// A translation matrix, column-vector convention.
fn translation(x: i64, y: i64) -> (r: Matrix)
    ensures
        r@ == translation_model(x as int, y as int),
{
    Matrix {
        m11: SCALE, m12: 0, m13: 0, m14: x,
        m21: 0, m22: SCALE, m23: 0, m24: y,
        m31: 0, m32: 0, m33: SCALE, m34: 0,
        m41: 0, m42: 0, m43: 0, m44: SCALE,
    }
}

/// A rotation matrix about Z from a cosine and a sine, column-vector
/// convention.
fn rotation(c: i64, s: i64) -> (r: Matrix)
    requires
        -ROT_LIMIT <= s <= ROT_LIMIT,
    ensures
        r@ == rotation_model(c as int, s as int),
{
    Matrix {
        m11: c, m12: -s, m13: 0, m14: 0,
        m21: s, m22: c, m23: 0, m24: 0,
        m31: 0, m32: 0, m33: SCALE, m34: 0,
        m41: 0, m42: 0, m43: 0, m44: SCALE,
    }
}

/// A non-uniform scale matrix.
fn scaling(sx: i64, sy: i64) -> (r: Matrix)
    ensures
        r@ == scale_model(sx as int, sy as int),
{
    Matrix {
        m11: sx, m12: 0, m13: 0, m14: 0,
        m21: 0, m22: sy, m23: 0, m24: 0,
        m31: 0, m32: 0, m33: SCALE, m34: 0,
        m41: 0, m42: 0, m43: 0, m44: SCALE,
    }
}

/// Composes the matrix of one descriptor: translate to the position, rotate
/// about Z, shift by the negated pivot, scale, and store the product
/// transposed, row-major.
pub fn compose(t: &Transform) -> (m: Matrix)
    requires
        t.valid(),
    ensures
        m@ == composed(*t),
{
    proof {
        lemma_product_bound(
            -(t.origin_x as int), t.size_x as int, ORIGIN_LIMIT as int, SIZE_LIMIT as int);
        lemma_product_bound(
            -(t.origin_y as int), t.size_y as int, ORIGIN_LIMIT as int, SIZE_LIMIT as int);
        lemma_fmul_bound(
            -(t.origin_x as int), t.size_x as int, ORIGIN_LIMIT as int, SIZE_LIMIT as int);
        lemma_fmul_bound(
            -(t.origin_y as int), t.size_y as int, ORIGIN_LIMIT as int, SIZE_LIMIT as int);
    }
    let px: i64 = fmul(-t.origin_x, t.size_x);
    let py: i64 = fmul(-t.origin_y, t.size_y);
    let t_pos: Matrix = translation(t.x, t.y);
    let rot: Matrix = rotation(t.rot_cos, t.rot_sin);
    let t_piv: Matrix = translation(px, py);
    let sc: Matrix = scaling(t.size_x, t.size_y);
    let m1: Matrix = matmul(&t_pos, &rot,
        Ghost(POS_LIMIT as int), Ghost(ROT_LIMIT as int));
    let m2: Matrix = matmul(&m1, &t_piv,
        Ghost(4 * (((POS_LIMIT as int) * (ROT_LIMIT as int)) / (SCALE as int))),
        Ghost(((ORIGIN_LIMIT as int) * (SIZE_LIMIT as int)) / (SCALE as int)));
    let m3: Matrix = matmul(&m2, &sc,
        Ghost(4 * ((4 * (((POS_LIMIT as int) * (ROT_LIMIT as int)) / (SCALE as int))
            * (((ORIGIN_LIMIT as int) * (SIZE_LIMIT as int)) / (SCALE as int))) / (SCALE as int))),
        Ghost(SIZE_LIMIT as int));
    m3.transposed()
}

/// Composes the matrix of one descriptor into a caller-owned slot.
pub fn compose_into(t: &Transform, out: &mut Matrix)
    requires
        t.valid(),
    ensures
        final(out)@ == composed(*t),
{
    *out = compose(t);
}

/// Relies on rayon's `par_iter_mut`, `par_iter`, `zip` and `for_each`: the
/// zipped parallel iterator pairs slot `i` of `out` with descriptor `i` of
/// `ts` for every index of the equal-length vectors, runs the closure —
/// which only calls the verified `compose_into` — exactly once per pair with
/// exclusive access to its slot and no other, and returns only when every
/// pair has been processed.
#[verifier::external_body]
fn par_compose_into(ts: &Vec<Transform>, out: &mut Vec<Matrix>)
    requires
        old(out)@.len() == ts@.len(),
        forall|i: int| 0 <= i < ts@.len() ==> (#[trigger] ts@[i]).valid(),
    ensures
        final(out)@.len() == ts@.len(),
        forall|i: int| 0 <= i < ts@.len()
            ==> (#[trigger] final(out)@[i])@ == composed(ts@[i]),
{
    out.par_iter_mut().zip(ts.par_iter()).for_each(|(slot, t)| compose_into(t, slot));
}

/// Composes the matrix of every descriptor into the caller-owned output
/// buffer, in place and in parallel: slot `i` ends up holding the composed
/// matrix of descriptor `i` and of nothing else, whatever order the workers
/// complete in, and no other slot is touched on its account.  The two
/// buffers must be of equal length; the caller keeps ownership of both.
pub fn calculate_matrices(transforms: &Vec<Transform>, matrices: &mut Vec<Matrix>)
    requires
        old(matrices)@.len() == transforms@.len(),
        forall|i: int| 0 <= i < transforms@.len() ==> (#[trigger] transforms@[i]).valid(),
    ensures
        final(matrices)@.len() == transforms@.len(),
        forall|i: int| 0 <= i < transforms@.len()
            ==> (#[trigger] final(matrices)@[i])@ == composed(transforms@[i]),
        final(matrices)@.map_values((|m: Matrix| m@)) == composed_batch(transforms@),
{
    par_compose_into(transforms, matrices);
    proof {
        assert(matrices@.map_values((|m: Matrix| m@)) =~= composed_batch(transforms@));
    }
}

/// Composes the whole batch in order: element `i` of the result is the
/// composed matrix of descriptor `i` and depends on nothing else.
pub fn compose_batch(transforms: &Vec<Transform>) -> (ms: Vec<Matrix>)
    requires
        forall|i: int| 0 <= i < transforms@.len() ==> (#[trigger] transforms@[i]).valid(),
    ensures
        ms@.len() == transforms@.len(),
        forall|i: int| 0 <= i < transforms@.len() ==> (#[trigger] ms@[i])@ == composed(transforms@[i]),
        ms@.map_values((|m: Matrix| m@)) == composed_batch(transforms@),
{
    let mut ms: Vec<Matrix> = Vec::new();
    let mut idx: usize = 0;
    while idx < transforms.len()
        invariant
            idx <= transforms@.len(),
            ms@.len() == idx as int,
            forall|i: int| 0 <= i < transforms@.len() ==> (#[trigger] transforms@[i]).valid(),
            forall|i: int| 0 <= i < idx as int ==> (#[trigger] ms@[i])@ == composed(transforms@[i]),
        decreases transforms@.len() - idx as int,
    {
        let m: Matrix = compose(&transforms[idx]);
        ms.push(m);
        idx = idx + 1;
    }
    proof {
        assert(ms@.map_values((|m: Matrix| m@)) =~= composed_batch(transforms@));
    }
    ms
}

} // verus!
