//! The decibel-like level scale.
//!
//! Levels are integers counting tenths of a decibel relative to full scale
//! (more negative = quieter). A window whose RMS power is zero has no finite
//! level; it is given a sentinel far below every real reading.

use vstd::prelude::*;

verus! {

/// Sentinel level (in tenths of a decibel) reported for a silent window,
/// standing in for negative infinity.
pub const SILENCE_DB_TENTHS: i32 = -9990;

/// Lowest measured level a caller may report: a Q15 RMS of 1 is about
/// -90.3 dB, so every genuine measurement lies well inside this bound.
pub const MIN_DB_TENTHS: i32 = -9900;

/// Highest measured level a caller may report: a Q15 RMS of 32768 is 0 dB,
/// with a small headroom above it for rounding at full scale.
pub const MAX_DB_TENTHS: i32 = 100;

/// True of a level obtained from a non-silent window's measurement.
pub open spec fn measured_level(db: int) -> bool {
    MIN_DB_TENTHS <= db <= MAX_DB_TENTHS
}

/// True of any level the threshold logic accepts: a genuine measurement or
/// the silence sentinel.
pub open spec fn valid_level(db: int) -> bool {
    measured_level(db) || db == SILENCE_DB_TENTHS
}

/// Selects the level of a window from its RMS power: the silence sentinel
/// when the RMS is zero, otherwise the measured logarithmic level the caller
/// obtained for that RMS.
pub fn level_for_rms(rms: u64, measured_db_tenths: i32) -> (db: i32)
    requires
        rms > 0 ==> measured_level(measured_db_tenths as int),
    ensures
        rms == 0 ==> db == SILENCE_DB_TENTHS,
        rms > 0 ==> db == measured_db_tenths,
        valid_level(db as int),
{
    if rms == 0 {
        SILENCE_DB_TENTHS
    } else {
        measured_db_tenths
    }
}

} // verus!
