//! Ambient-noise calibration.
//!
//! Before steady-state processing, six window-equivalents of samples are
//! collected and reduced to a single aggregate RMS (over the whole buffer,
//! not per window). The resulting ambient level fixes the two thresholds:
//! the soft threshold 15 dB above ambient and the cut threshold 45 dB above.

use vstd::prelude::*;
use crate::samples::valid_sample;
use crate::level::valid_level;
use crate::rms::{all_valid, is_rms, rms_of_samples};
use crate::window::MAX_WINDOW_CAPACITY;

verus! {

/// How many window-equivalents of samples calibration collects.
pub const CALIBRATION_WINDOWS: usize = 6;

/// Offset of the soft threshold above the ambient level, in tenths of a dB.
pub const SOFT_OFFSET_DB_TENTHS: i32 = 150;

/// Offset of the cut threshold above the ambient level, in tenths of a dB.
pub const CUT_OFFSET_DB_TENTHS: i32 = 450;

/// The record calibration produces, immutable afterwards: the ambient level
/// and the two thresholds derived from it, all in tenths of a dB.
#[derive(Clone, Copy, Debug, PartialEq, Eq, Structural)]
pub struct Calibration {
    pub ambient_db_tenths: i32,
    pub min_db_tenths: i32,
    pub max_db_tenths: i32,
}

impl Calibration {
    /// Well-formedness: the ambient level is one the level scale can
    /// produce, and the thresholds sit at their fixed offsets above it
    /// (so the soft threshold is strictly below the cut threshold).
    pub open spec fn wf(&self) -> bool {
        &&& valid_level(self.ambient_db_tenths as int)
        &&& self.min_db_tenths == self.ambient_db_tenths + SOFT_OFFSET_DB_TENTHS
        &&& self.max_db_tenths == self.ambient_db_tenths + CUT_OFFSET_DB_TENTHS
    }

    /// Derives the thresholds from a measured ambient level.
    pub fn from_ambient(ambient_db_tenths: i32) -> (c: Calibration)
        requires
            valid_level(ambient_db_tenths as int),
        ensures
            c.wf(),
            c.ambient_db_tenths == ambient_db_tenths,
            c.min_db_tenths == ambient_db_tenths + SOFT_OFFSET_DB_TENTHS,
            c.max_db_tenths == ambient_db_tenths + CUT_OFFSET_DB_TENTHS,
    {
        Calibration {
            ambient_db_tenths,
            min_db_tenths: ambient_db_tenths + SOFT_OFFSET_DB_TENTHS,
            max_db_tenths: ambient_db_tenths + CUT_OFFSET_DB_TENTHS,
        }
    }
}

/// Collects the calibration buffer: samples accumulate until six
/// window-equivalents are present, then one aggregate RMS is read off.
pub struct Calibrator {
    samples: Vec<i32>,
    target: usize,
}

impl View for Calibrator {
    type V = Seq<i32>;

    closed spec fn view(&self) -> Seq<i32> {
        self.samples@
    }
}

impl Calibrator {
    /// The number of samples calibration waits for.
    pub closed spec fn target_spec(&self) -> int {
        self.target as int
    }

    /// Well-formedness: the target is six window-equivalents for some
    /// admissible window capacity, and at most `target` valid samples are
    /// buffered.
    pub open spec fn wf(&self) -> bool {
        &&& 6 <= self.target_spec() <= 6 * (MAX_WINDOW_CAPACITY as int)
        &&& self@.len() <= self.target_spec()
        &&& all_valid(self@)
    }

    /// An empty calibrator for the given window capacity.
    pub fn new(samples_per_window: usize) -> (c: Calibrator)
        requires
            1 <= samples_per_window <= MAX_WINDOW_CAPACITY,
        ensures
            c.wf(),
            c@.len() == 0,
            c.target_spec() == CALIBRATION_WINDOWS * samples_per_window,
    {
        Calibrator { samples: Vec::new(), target: CALIBRATION_WINDOWS * samples_per_window }
    }

    /// Whether enough samples have accumulated.
    pub fn is_done(&self) -> (b: bool)
        ensures
            b == (self@.len() >= self.target_spec()),
    {
        self.samples.len() >= self.target
    }

    /// Adds one sample while the buffer is short of the target.
    pub fn push(&mut self, s: i32)
        requires
            old(self).wf(),
            valid_sample(s as int),
            old(self)@.len() < old(self).target_spec(),
        ensures
            final(self).wf(),
            final(self)@ == old(self)@.push(s),
            final(self).target_spec() == old(self).target_spec(),
    {
        self.samples.push(s);
    }

    /// The aggregate RMS of everything collected.
    pub fn ambient_rms(&self) -> (r: u64)
        requires
            self.wf(),
        ensures
            is_rms(self@, r as int),
            r <= 32768,
    {
        rms_of_samples(&self.samples)
    }
}

} // verus!
