//! Audio amplitudes in signed Q15 fixed point.
//!
//! An amplitude of 1.0 is held as 32768 and -1.0 as -32768. Capture formats
//! that are already integral are normalized here exactly: a signed 16-bit
//! sample is its own Q15 value, and an unsigned 16-bit sample `u` maps to the
//! nearest integer to `((u/65535)*2 - 1) * 32768`, ties away from zero.

use vstd::prelude::*;
use crate::rounding::{round_nearest, lemma_round_nearest_range};

verus! {

/// Full scale of the Q15 amplitude representation.
pub const SAMPLE_SCALE: i32 = 32768;

/// True of every amplitude the windowing logic accepts.
pub open spec fn valid_sample(s: int) -> bool {
    -32768 <= s <= 32768
}

/// Normalization a signed 16-bit capture format owes: `s/32768` in amplitude
/// is exactly `s` in Q15.
pub fn sample_from_i16(s: i16) -> (q: i32)
    ensures
        q == s as int,
        valid_sample(q as int),
{
    s as i32
}

/// The exact Q15 value of an unsigned 16-bit sample: the nearest integer to
/// `((u/65535)*2 - 1) * 32768`, ties away from zero.
pub open spec fn q15_of_u16(u: int) -> int {
    round_nearest((2 * u - 65535) * 32768, 65535)
}

/// Normalization an unsigned 16-bit capture format owes: 0 maps to -32768,
/// 65535 to 32768, and values in between linearly.
pub fn sample_from_u16(u: u16) -> (q: i32)
    ensures
        q == q15_of_u16(u as int),
        valid_sample(q as int),
{
    let a: i64 = 2 * (u as i64) - 65535;
    if a >= 0 {
        let num: u64 = (a as u64) * 32768;
        proof {
            assert(num <= 65535u64 * 32768) by (nonlinear_arith)
                requires
                    0 <= a <= 65535,
                    num == a * 32768,
            ;
            lemma_round_nearest_range(num as int, 65535, 32768);
        }
        let r: u64 = crate::rounding::round_nearest_u64(num, 65535);
        r as i32
    } else {
        let num: u64 = ((-a) as u64) * 32768;
        proof {
            assert(num <= 65535u64 * 32768) by (nonlinear_arith)
                requires
                    0 < -a <= 65535,
                    num == (-a) * 32768,
            ;
            lemma_round_nearest_range(num as int, 65535, 32768);
            assert((-((2 * (u as int) - 65535) * 32768)) == num);
        }
        let r: u64 = crate::rounding::round_nearest_u64(num, 65535);
        -(r as i32)
    }
}

} // verus!
