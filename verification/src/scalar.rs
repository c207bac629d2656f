//! Fixed-point scalars: `i64` values carrying 16 fractional bits.

use vstd::prelude::*;
use vstd::arithmetic::div_mod::{lemma_div_is_ordered, lemma_div_of0, lemma_div_pos_is_pos, lemma_div_multiples_vanish};
use vstd::arithmetic::mul::{lemma_mul_by_zero_is_zero, lemma_mul_is_commutative, lemma_mul_nonnegative, lemma_mul_strictly_positive, lemma_mul_unary_negation};

verus! {

/// Raw units per whole unit: a scalar `v` stands for the number `v / SCALE`.
/// `SCALE` itself is the representation of 1.
pub const SCALE: i64 = 65536;

/// The product of two fixed-point scalars: the mathematical product scaled
/// back down, rounded toward zero.
pub open spec fn fmul_s(a: int, b: int) -> int {
    if a * b >= 0 {
        (a * b) / (SCALE as int)
    } else {
        -((-(a * b)) / (SCALE as int))
    }
}

/// Multiplying by the fixed-point one (`SCALE`) changes nothing, on either
/// side and without rounding.
pub proof fn lemma_fmul_one(v: int)
    ensures
        fmul_s(SCALE as int, v) == v,
        fmul_s(v, SCALE as int) == v,
{
    let s: int = SCALE as int;
    lemma_mul_is_commutative(s, v);
    if v >= 0 {
        lemma_mul_nonnegative(s, v);
        lemma_div_multiples_vanish(v, s);
    } else {
        lemma_mul_strictly_positive(s, -v);
        lemma_mul_unary_negation(s, v);
        lemma_div_multiples_vanish(-v, s);
    }
}

/// Multiplying by zero gives zero, on either side.
pub proof fn lemma_fmul_zero(v: int)
    ensures
        fmul_s(0, v) == 0,
        fmul_s(v, 0) == 0,
{
    lemma_mul_by_zero_is_zero(v);
    lemma_div_of0(SCALE as int);
}

/// A product of values bounded in magnitude is bounded by the product of the
/// bounds.
pub proof fn lemma_product_bound(a: int, b: int, ka: int, kb: int)
    requires
        0 <= ka,
        0 <= kb,
        -ka <= a <= ka,
        -kb <= b <= kb,
    ensures
        -(ka * kb) <= a * b <= ka * kb,
{
    assert(-(ka * kb) <= a * b <= ka * kb) by (nonlinear_arith)
        requires
            0 <= ka,
            0 <= kb,
            -ka <= a <= ka,
            -kb <= b <= kb,
    ;
}

/// The magnitude of a fixed-point product is bounded by the scaled-down
/// product of the factors' magnitude bounds.
pub proof fn lemma_fmul_bound(a: int, b: int, ka: int, kb: int)
    requires
        0 <= ka,
        0 <= kb,
        -ka <= a <= ka,
        -kb <= b <= kb,
    ensures
        -((ka * kb) / (SCALE as int)) <= fmul_s(a, b) <= (ka * kb) / (SCALE as int),
{
    let s: int = SCALE as int;
    lemma_product_bound(a, b, ka, kb);
    lemma_mul_nonnegative(ka, kb);
    lemma_div_pos_is_pos(ka * kb, s);
    if a * b >= 0 {
        lemma_div_is_ordered(a * b, ka * kb, s);
        lemma_div_pos_is_pos(a * b, s);
    } else {
        lemma_div_is_ordered(-(a * b), ka * kb, s);
        lemma_div_pos_is_pos(-(a * b), s);
    }
}

/// Multiplies two fixed-point scalars, rounding toward zero.
pub fn fmul(a: i64, b: i64) -> (r: i64)
    requires
        -((SCALE as int) * (i64::MAX as int)) <= (a as int) * (b as int),
        (a as int) * (b as int) <= (SCALE as int) * (i64::MAX as int),
    ensures
        r as int == fmul_s(a as int, b as int),
{
    proof {
        lemma_div_multiples_vanish(i64::MAX as int, SCALE as int);
    }
    let p: i128 = (a as i128) * (b as i128);
    if p >= 0 {
        proof {
            lemma_div_is_ordered(p as int, (SCALE as int) * (i64::MAX as int), SCALE as int);
            lemma_div_pos_is_pos(p as int, SCALE as int);
        }
        let q: u128 = (p as u128) / (SCALE as u128);
        q as i64
    } else {
        proof {
            lemma_div_is_ordered(-(p as int), (SCALE as int) * (i64::MAX as int), SCALE as int);
            lemma_div_pos_is_pos(-(p as int), SCALE as int);
        }
        let m: u128 = (-p) as u128;
        let q: u128 = m / (SCALE as u128);
        let qi: i64 = q as i64;
        -qi
    }
}

/// A four-term fixed-point dot product, with every term and the sum bounded
/// by the scaled-down product of the operand bounds.
pub(crate) fn dot4(
    a0: i64, a1: i64, a2: i64, a3: i64,
    b0: i64, b1: i64, b2: i64, b3: i64,
    Ghost(ka): Ghost<int>, Ghost(kb): Ghost<int>,
) -> (r: i64)
    requires
        0 <= ka,
        0 <= kb,
        -ka <= a0 as int <= ka,
        -ka <= a1 as int <= ka,
        -ka <= a2 as int <= ka,
        -ka <= a3 as int <= ka,
        -kb <= b0 as int <= kb,
        -kb <= b1 as int <= kb,
        -kb <= b2 as int <= kb,
        -kb <= b3 as int <= kb,
        ka * kb <= (SCALE as int) * (i64::MAX as int),
        4 * ((ka * kb) / (SCALE as int)) <= i64::MAX as int,
    ensures
        r as int == fmul_s(a0 as int, b0 as int) + fmul_s(a1 as int, b1 as int)
            + fmul_s(a2 as int, b2 as int) + fmul_s(a3 as int, b3 as int),
        -(4 * ((ka * kb) / (SCALE as int))) <= r as int,
        r as int <= 4 * ((ka * kb) / (SCALE as int)),
{
    proof {
        lemma_product_bound(a0 as int, b0 as int, ka, kb);
        lemma_product_bound(a1 as int, b1 as int, ka, kb);
        lemma_product_bound(a2 as int, b2 as int, ka, kb);
        lemma_product_bound(a3 as int, b3 as int, ka, kb);
        lemma_fmul_bound(a0 as int, b0 as int, ka, kb);
        lemma_fmul_bound(a1 as int, b1 as int, ka, kb);
        lemma_fmul_bound(a2 as int, b2 as int, ka, kb);
        lemma_fmul_bound(a3 as int, b3 as int, ka, kb);
    }
    let f0: i64 = fmul(a0, b0);
    let f1: i64 = fmul(a1, b1);
    let f2: i64 = fmul(a2, b2);
    let f3: i64 = fmul(a3, b3);
    f0 + f1 + f2 + f3
}

} // verus!
