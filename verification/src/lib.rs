//! Core logic of an ambient-noise gate: audio windows are reduced to an RMS
//! power figure, converted to a decibel-like level, compared against
//! thresholds calibrated from the ambient noise floor, and mapped to a binary
//! control decision with hysteresis.
//!
//! Audio amplitudes are held in a signed Q15 fixed-point form (full scale at
//! 32768) and levels in tenths of a decibel, so that every computation is
//! exact integer arithmetic. Capture, clocks and the physical enable/disable
//! effect stay outside the library; callers feed samples and timestamps in
//! and perform the actions the library decides on.

pub mod calibrate;
pub mod control;
pub mod level;
pub mod rms;
pub mod rounding;
pub mod samples;
pub mod window;
