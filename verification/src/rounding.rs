//! Round-to-nearest integer division, ties away from zero.
//!
//! Both the percentage interpolation and the normalization of unsigned
//! capture formats round a quotient to the nearest integer; these are the
//! shared definition, implementation and facts about it.

use vstd::prelude::*;
use vstd::arithmetic::div_mod::{
    lemma_div_is_ordered, lemma_fundamental_div_mod, lemma_mod_bound,
};

verus! {

/// `a / b` rounded to the nearest integer for `a >= 0`, `b > 0`, with ties
/// rounded up (equivalently, away from zero).
pub open spec fn round_nearest_nonneg(a: int, b: int) -> int
    recommends
        a >= 0,
        b > 0,
{
    (2 * a + b) / (2 * b)
}

/// `a / b` rounded to the nearest integer for any `a` and `b > 0`, with ties
/// rounded away from zero.
pub open spec fn round_nearest(a: int, b: int) -> int
    recommends
        b > 0,
{
    if a >= 0 {
        round_nearest_nonneg(a, b)
    } else {
        -round_nearest_nonneg(-a, b)
    }
}

/// The rounded quotient is within half of the exact one:
/// `q - 1/2 <= a/b < q + 1/2`, scaled by `2*b` to stay in integers.
pub proof fn lemma_round_nearest_close(a: int, b: int)
    requires
        a >= 0,
        b > 0,
    ensures
        2 * b * round_nearest_nonneg(a, b) - b <= 2 * a < 2 * b * round_nearest_nonneg(a, b) + b,
{
    let q = round_nearest_nonneg(a, b);
    lemma_fundamental_div_mod(2 * a + b, 2 * b);
    lemma_mod_bound(2 * a + b, 2 * b);
    assert(2 * a + b == 2 * b * q + (2 * a + b) % (2 * b));
}

/// Rounding to nearest is monotone in the dividend.
pub proof fn lemma_round_nearest_monotone(a1: int, a2: int, b: int)
    requires
        0 <= a1 <= a2,
        b > 0,
    ensures
        round_nearest_nonneg(a1, b) <= round_nearest_nonneg(a2, b),
{
    lemma_div_is_ordered(2 * a1 + b, 2 * a2 + b, 2 * b);
}

/// A dividend between `0` and `n*b` rounds to a quotient between `0` and `n`.
pub proof fn lemma_round_nearest_range(a: int, b: int, n: int)
    requires
        b > 0,
        0 <= a <= n * b,
    ensures
        0 <= round_nearest_nonneg(a, b) <= n,
{
    let q = round_nearest_nonneg(a, b);
    lemma_round_nearest_close(a, b);
    assert(2 * b * q + b > 0);
    assert(q >= 0) by (nonlinear_arith)
        requires
            b > 0,
            2 * b * q + b > 0,
    ;
    assert(2 * b * q - b <= 2 * (n * b));
    assert(q <= n) by (nonlinear_arith)
        requires
            b > 0,
            2 * b * q - b <= 2 * (n * b),
    ;
}

/// Computes `round_nearest_nonneg` on machine integers.
pub fn round_nearest_u64(a: u64, b: u64) -> (q: u64)
    requires
        0 < b <= u32::MAX,
        a <= u32::MAX,
    ensures
        q == round_nearest_nonneg(a as int, b as int),
{
    (2 * a + b) / (2 * b)
}

} // verus!
