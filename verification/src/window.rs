//! Fixed-capacity aggregation of samples into windows.
//!
//! A window buffers samples up to a capacity fixed at construction (derived
//! once from the sample rate), is consumed atomically into one RMS value,
//! and is then empty again. Its view is the sequence of buffered samples.

use vstd::prelude::*;
use crate::samples::valid_sample;
use crate::rms::{all_valid, is_rms, rms_of_samples};

verus! {

/// Largest capacity a window may be built with; 500 ms at any realistic
/// sample rate lies far below it, and it keeps every sum of squares within
/// a machine word.
pub const MAX_WINDOW_CAPACITY: usize = 0x100_0000;

/// Grace period past the window duration before a stalled window is
/// finalized early, in milliseconds.
pub const WINDOW_GRACE_MS: u64 = 200;

/// The capacity a capture rate dictates: `sample_rate * window_ms / 1000`
/// samples, kept within the admissible range.
pub open spec fn capacity_for_rate_spec(sample_rate_hz: int, window_ms: int) -> int {
    let raw = sample_rate_hz * window_ms / 1000;
    if raw < 1 {
        1
    } else if raw > MAX_WINDOW_CAPACITY {
        MAX_WINDOW_CAPACITY as int
    } else {
        raw
    }
}

/// Derives the window capacity from the capture sample rate, once at
/// startup.
pub fn capacity_for_rate(sample_rate_hz: u32, window_ms: u64) -> (c: usize)
    requires
        window_ms <= 1_000_000,
    ensures
        c == capacity_for_rate_spec(sample_rate_hz as int, window_ms as int),
        1 <= c <= MAX_WINDOW_CAPACITY,
{
    proof {
        assert((sample_rate_hz as int) * (window_ms as int) <= 0xFFFF_FFFF * 1_000_000)
            by (nonlinear_arith)
            requires
                sample_rate_hz <= 0xFFFF_FFFF,
                window_ms <= 1_000_000,
        ;
    }
    let raw: u64 = (sample_rate_hz as u64) * window_ms / 1000;
    if raw < 1 {
        1
    } else if raw > MAX_WINDOW_CAPACITY as u64 {
        MAX_WINDOW_CAPACITY
    } else {
        raw as usize
    }
}

/// Whether a window short of capacity is to be finalized early: the
/// cumulative wait since it was started has exceeded the window duration
/// plus the grace period. This bounds the latency of a stalled source.
pub fn finalize_early(elapsed_ms: u64, window_ms: u64) -> (b: bool)
    requires
        window_ms <= u64::MAX - WINDOW_GRACE_MS,
    ensures
        b == (elapsed_ms > window_ms + WINDOW_GRACE_MS),
{
    elapsed_ms > window_ms + WINDOW_GRACE_MS
}

/// A fixed-capacity buffer of Q15 samples awaiting RMS reduction.
pub struct Window {
    samples: Vec<i32>,
    capacity: usize,
}

impl View for Window {
    type V = Seq<i32>;

    closed spec fn view(&self) -> Seq<i32> {
        self.samples@
    }
}

impl Window {
    /// The capacity fixed at construction.
    pub closed spec fn capacity_spec(&self) -> int {
        self.capacity as int
    }

    /// Well-formedness: the capacity is in range and the buffer holds at
    /// most `capacity` valid samples.
    pub open spec fn wf(&self) -> bool {
        &&& 1 <= self.capacity_spec() <= MAX_WINDOW_CAPACITY
        &&& self@.len() <= self.capacity_spec()
        &&& all_valid(self@)
    }

    /// An empty window of the given capacity.
    pub fn new(capacity: usize) -> (w: Window)
        requires
            1 <= capacity <= MAX_WINDOW_CAPACITY,
        ensures
            w.wf(),
            w@.len() == 0,
            w.capacity_spec() == capacity,
    {
        Window { samples: Vec::new(), capacity }
    }

    /// The capacity fixed at construction.
    pub fn capacity(&self) -> (c: usize)
        ensures
            c == self.capacity_spec(),
    {
        self.capacity
    }

    /// How many samples are buffered.
    pub fn len(&self) -> (l: usize)
        ensures
            l == self@.len(),
    {
        self.samples.len()
    }

    /// Whether the window has reached capacity and is due for reduction.
    pub fn is_full(&self) -> (b: bool)
        ensures
            b == (self@.len() >= self.capacity_spec()),
    {
        self.samples.len() >= self.capacity
    }

    /// Appends one sample to a window that is not yet full.
    pub fn push(&mut self, s: i32)
        requires
            old(self).wf(),
            valid_sample(s as int),
            old(self)@.len() < old(self).capacity_spec(),
        ensures
            final(self).wf(),
            final(self)@ == old(self)@.push(s),
            final(self).capacity_spec() == old(self).capacity_spec(),
    {
        self.samples.push(s);
    }

    /// Discards any buffered samples.
    pub fn clear(&mut self)
        requires
            old(self).wf(),
        ensures
            final(self).wf(),
            final(self)@.len() == 0,
            final(self).capacity_spec() == old(self).capacity_spec(),
    {
        self.samples.clear();
    }

    /// Consumes the window: returns the RMS of the buffered samples
    /// (possibly short of capacity, 0 if none) and empties the buffer.
    pub fn take_rms(&mut self) -> (r: u64)
        requires
            old(self).wf(),
        ensures
            is_rms(old(self)@, r as int),
            r <= 32768,
            final(self).wf(),
            final(self)@.len() == 0,
            final(self).capacity_spec() == old(self).capacity_spec(),
    {
        let r = rms_of_samples(&self.samples);
        self.samples.clear();
        r
    }
}

} // verus!
