//! Shared arithmetic facts: product bounds and clamping, used to keep the
//! fixed-point pass arithmetic free of overflow.

use vstd::prelude::*;

verus! {

/// The product of two values bounded in magnitude is bounded by the product
/// of the bounds.
pub proof fn lemma_mul_bounds(a: int, b: int, bound_a: int, bound_b: int)
    by (nonlinear_arith)
    requires
        -bound_a <= a <= bound_a,
        -bound_b <= b <= bound_b,
        0 <= bound_a,
        0 <= bound_b,
    ensures
        -(bound_a * bound_b) <= a * b <= bound_a * bound_b,
{
}

/// The product of two nonnegative values is nonnegative, and monotone in
/// both factors.
pub proof fn lemma_mul_nonneg_le(a: int, b: int, bound_a: int, bound_b: int)
    by (nonlinear_arith)
    requires
        0 <= a <= bound_a,
        0 <= b <= bound_b,
    ensures
        0 <= a * b <= bound_a * bound_b,
{
}

/// A square is nonnegative and bounded by the square of the bound.
pub proof fn lemma_square_bounds(a: int, bound: int)
    by (nonlinear_arith)
    requires
        -bound <= a <= bound,
        0 <= bound,
    ensures
        0 <= a * a <= bound * bound,
{
}

/// The product of two positive values is positive.
pub proof fn lemma_mul_pos(a: int, b: int)
    by (nonlinear_arith)
    requires
        0 < a,
        0 < b,
    ensures
        0 < a * b,
{
}

/// Multiplying both sides of an inequality by a nonnegative factor
/// preserves it.
pub proof fn lemma_mul_le(a: int, b: int, c: int)
    by (nonlinear_arith)
    requires
        a <= b,
        0 <= c,
    ensures
        a * c <= b * c,
{
}

/// A row-major index inside a `w * h` rectangle decomposes into a column
/// `i % w` and a row `i / w`, both in range.
pub proof fn lemma_index_decompose(i: int, w: int, h: int)
    requires
        0 < w,
        0 < h,
        0 <= i < w * h,
    ensures
        0 <= i % w < w,
        0 <= i / w < h,
        (i / w) * w + (i % w) == i,
{
    let q = i / w;
    let r = i % w;
    vstd::arithmetic::div_mod::lemma_fundamental_div_mod(i, w);
    vstd::arithmetic::div_mod::lemma_mod_bound(i, w);
    vstd::arithmetic::div_mod::lemma_div_pos_is_pos(i, w);
    assert(i == w * q + r);
    assert(w * q == q * w) by (nonlinear_arith);
    if q >= h {
        lemma_mul_le(h, q, w);
        assert(h * w == w * h) by (nonlinear_arith);
        assert(false);
    }
}

/// A nonnegative value shrinks (weakly) under division by a positive
/// divisor.
pub proof fn lemma_div_le_self(a: int, c: int)
    requires
        0 <= a,
        1 <= c,
    ensures
        0 <= a / c <= a,
{
    vstd::arithmetic::div_mod::lemma_div_is_ordered_by_denominator(a, 1, c);
    vstd::arithmetic::div_mod::lemma_div_pos_is_pos(a, c);
    assert(a / 1 == a);
}

/// `v` pushed into the closed interval `lo ..= hi`.
pub open spec fn clamp_spec(v: int, lo: int, hi: int) -> int {
    if v < lo {
        lo
    } else if v > hi {
        hi
    } else {
        v
    }
}

/// `v` pushed into the closed interval `lo ..= hi`.
pub fn clamp_i64(v: i64, lo: i64, hi: i64) -> (r: i64)
    requires
        lo <= hi,
    ensures
        r == clamp_spec(v as int, lo as int, hi as int),
        lo <= r <= hi,
{
    if v < lo {
        lo
    } else if v > hi {
        hi
    } else {
        v
    }
}

/// A channel value capped at 255.
pub open spec fn min255_spec(v: int) -> int {
    if v > 255 {
        255
    } else {
        v
    }
}

} // verus!
