//! Root-mean-square power of a window of Q15 samples.
//!
//! The RMS of a window is `sqrt(mean(s^2))` over its samples; an empty window
//! has RMS 0. On Q15 integers the mean of squares is an exact integer
//! division and the square root is the integer square root, characterized by
//! `r*r <= m < (r+1)*(r+1)`.

use vstd::prelude::*;
use vstd::arithmetic::div_mod::{lemma_div_is_ordered, lemma_div_multiples_vanish};
use vstd::arithmetic::mul::lemma_mul_inequality;
use crate::samples::valid_sample;

verus! {

/// Sum of the squares of a sequence of samples.
pub open spec fn sum_squares(s: Seq<i32>) -> int
    decreases s.len(),
{
    if s.len() == 0 {
        0
    } else {
        sum_squares(s.drop_last()) + (s.last() as int) * (s.last() as int)
    }
}

/// Mean of the squares, rounded down; 0 for an empty sequence.
pub open spec fn mean_square(s: Seq<i32>) -> int {
    if s.len() == 0 {
        0
    } else {
        sum_squares(s) / (s.len() as int)
    }
}

/// `r` is the RMS of `s`: the integer square root of the mean square
/// (0 for an empty sequence, where the mean square is 0 as well).
pub open spec fn is_rms(s: Seq<i32>, r: int) -> bool {
    r >= 0 && r * r <= mean_square(s) && mean_square(s) < (r + 1) * (r + 1)
}

/// True when every element is a valid Q15 sample.
pub open spec fn all_valid(s: Seq<i32>) -> bool {
    forall|i: int| 0 <= i < s.len() ==> valid_sample(#[trigger] s[i] as int)
}

/// The sum of squares of valid samples is between 0 and `len * 32768^2`.
pub proof fn lemma_sum_squares_bounds(s: Seq<i32>)
    requires
        all_valid(s),
    ensures
        0 <= sum_squares(s) <= s.len() * 0x4000_0000,
    decreases s.len(),
{
    if s.len() == 0 {
    } else {
        lemma_sum_squares_bounds(s.drop_last());
        let l = s.last() as int;
        assert(l * l <= 0x4000_0000) by (nonlinear_arith)
            requires
                -32768 <= l <= 32768,
        ;
        assert(l * l >= 0) by (nonlinear_arith);
        assert((s.len() - 1) * 0x4000_0000 + 0x4000_0000 == s.len() * 0x4000_0000) by (nonlinear_arith);
    }
}

/// The RMS characterization pins a single value: two integers satisfying it
/// for the same window are equal.
pub proof fn lemma_rms_unique(s: Seq<i32>, r1: int, r2: int)
    requires
        is_rms(s, r1),
        is_rms(s, r2),
    ensures
        r1 == r2,
{
    assert(!(r1 < r2 || r2 < r1)) by (nonlinear_arith)
        requires
            r1 >= 0,
            r2 >= 0,
            r1 * r1 <= mean_square(s) < (r1 + 1) * (r1 + 1),
            r2 * r2 <= mean_square(s) < (r2 + 1) * (r2 + 1),
    ;
}

/// A window of identical amplitudes has exactly that amplitude as its RMS:
/// the mean square is the square of the amplitude, so calibration against a
/// steady tone reads the tone's own level.
pub proof fn lemma_constant_amplitude_rms(s: Seq<i32>, a: i32)
    requires
        s.len() > 0,
        0 <= a as int <= 32768,
        forall|i: int| 0 <= i < s.len() ==> s[i] == a,
    ensures
        is_rms(s, a as int),
{
    let av = a as int;
    assert(sum_squares(s) == s.len() * (av * av)) by {
        lemma_sum_squares_constant(s, a);
    }
    lemma_div_multiples_vanish(av * av, s.len() as int);
    assert(mean_square(s) == av * av);
    assert(av * av < (av + 1) * (av + 1)) by (nonlinear_arith)
        requires
            av >= 0,
    ;
}

proof fn lemma_sum_squares_constant(s: Seq<i32>, a: i32)
    requires
        forall|i: int| 0 <= i < s.len() ==> s[i] == a,
    ensures
        sum_squares(s) == s.len() * ((a as int) * (a as int)),
    decreases s.len(),
{
    let av = a as int;
    if s.len() == 0 {
    } else {
        lemma_sum_squares_constant(s.drop_last(), a);
        assert(s.last() == a);
        assert((s.len() - 1) * (av * av) + av * av == s.len() * (av * av)) by (nonlinear_arith);
    }
}

/// Integer square root of a mean square (at most `32768^2`).
fn isqrt(n: u64) -> (r: u64)
    requires
        n <= 0x4000_0000,
    ensures
        r * r <= n < (r + 1) * (r + 1),
        r <= 32768,
{
    let mut r: u64 = 0;
    loop
        invariant
            r <= 32768,
            n <= 0x4000_0000,
            r * r <= n,
        decreases 32768 - r,
    {
        proof {
            lemma_mul_inequality(r + 1, 32769, r + 1);
            lemma_mul_inequality(r + 1, 32769, 32769);
        }
        if (r + 1) * (r + 1) > n {
            return r;
        }
        proof {
            assert(r < 32768) by (nonlinear_arith)
                requires
                    (r + 1) * (r + 1) <= 0x4000_0000,
                    r <= 32768,
            ;
        }
        r = r + 1;
    }
}

/// Sum of squares of a vector of valid samples, as a machine integer.
pub fn sum_squares_u64(v: &Vec<i32>) -> (s: u64)
    requires
        all_valid(v@),
        v@.len() <= 0x8000_0000,
    ensures
        s == sum_squares(v@),
{
    let mut acc: u64 = 0;
    let mut i: usize = 0;
    proof {
        assert(v@.subrange(0, 0) =~= Seq::<i32>::empty());
    }
    while i < v.len()
        invariant
            i <= v@.len(),
            all_valid(v@),
            v@.len() <= 0x8000_0000,
            acc == sum_squares(v@.subrange(0, i as int)),
        decreases v@.len() - i,
    {
        let s = v[i];
        proof {
            assert(valid_sample(v@[i as int] as int));
            lemma_sum_squares_bounds(v@.subrange(0, i as int));
            assert(v@.subrange(0, i as int).len() * 0x4000_0000 <= 0x8000_0000 * 0x4000_0000)
                by (nonlinear_arith)
                requires
                    v@.subrange(0, i as int).len() <= 0x8000_0000,
            ;
            assert(0 <= (s as int) * (s as int) <= 0x4000_0000) by (nonlinear_arith)
                requires
                    -32768 <= s as int <= 32768,
            ;
            assert(v@.subrange(0, i + 1).drop_last() =~= v@.subrange(0, i as int));
        }
        let sq: u64 = (s as i64 * s as i64) as u64;
        acc = acc + sq;
        i = i + 1;
    }
    proof {
        assert(v@.subrange(0, v@.len() as int) =~= v@);
    }
    acc
}

/// RMS of a vector of valid samples: integer square root of the mean of the
/// squares, 0 for an empty vector.
pub fn rms_of_samples(v: &Vec<i32>) -> (r: u64)
    requires
        all_valid(v@),
        v@.len() <= 0x8000_0000,
    ensures
        is_rms(v@, r as int),
        r <= 32768,
{
    if v.len() == 0 {
        return 0;
    }
    let s = sum_squares_u64(v);
    let len: u64 = v.len() as u64;
    proof {
        lemma_sum_squares_bounds(v@);
        lemma_div_is_ordered(s as int, (v@.len() as int) * 0x4000_0000, len as int);
        lemma_div_multiples_vanish(0x4000_0000, len as int);
        assert((v@.len() as int) * 0x4000_0000 == (len as int) * 0x4000_0000);
    }
    let mean: u64 = s / len;
    isqrt(mean)
}

} // verus!
