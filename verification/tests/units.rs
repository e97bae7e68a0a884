//! Unit tests for the level scale, normalization, RMS reduction and
//! threshold mapping, each against an exactly computed expected value.

use noisegate::calibrate::{Calibration, Calibrator};
use noisegate::control::percentage;
use noisegate::level::{level_for_rms, SILENCE_DB_TENTHS};
use noisegate::rounding::round_nearest_u64;
use noisegate::samples::{sample_from_i16, sample_from_u16};
use noisegate::window::{capacity_for_rate, finalize_early, Window, MAX_WINDOW_CAPACITY};

#[test]
fn rounding_exact_and_ties() {
    assert_eq!(round_nearest_u64(15000, 300), 50);
    assert_eq!(round_nearest_u64(3, 2), 2); // 1.5 rounds up
    assert_eq!(round_nearest_u64(5, 4), 1); // 1.25 rounds down
    assert_eq!(round_nearest_u64(0, 7), 0);
}

#[test]
fn i16_samples_are_their_own_q15_value() {
    assert_eq!(sample_from_i16(0), 0);
    assert_eq!(sample_from_i16(-32768), -32768);
    assert_eq!(sample_from_i16(32767), 32767);
}

#[test]
fn u16_samples_normalize_to_full_scale() {
    assert_eq!(sample_from_u16(0), -32768);
    assert_eq!(sample_from_u16(65535), 32768);
    // (32768/65535)*2 - 1 is just above a half Q15 step: rounds to 1.
    assert_eq!(sample_from_u16(32768), 1);
    // (32767/65535)*2 - 1 is just below minus a half step: rounds to -1.
    assert_eq!(sample_from_u16(32767), -1);
}

#[test]
fn capacity_follows_the_sample_rate() {
    assert_eq!(capacity_for_rate(48000, 500), 24000); // 48 kHz, 500 ms
    assert_eq!(capacity_for_rate(44100, 500), 22050);
    assert_eq!(capacity_for_rate(0, 500), 1); // degenerate rate still yields a window
    assert_eq!(capacity_for_rate(u32::MAX, 1_000_000), MAX_WINDOW_CAPACITY);
}

#[test]
fn stalled_window_finalizes_after_the_grace_period() {
    assert!(!finalize_early(700, 500)); // exactly window + grace: keep waiting
    assert!(finalize_early(701, 500));
    assert!(!finalize_early(0, 500));
}

#[test]
fn empty_window_has_zero_rms() {
    let mut w = Window::new(4);
    assert_eq!(w.take_rms(), 0);
}

#[test]
fn identical_samples_window_rms_is_their_amplitude() {
    let mut w = Window::new(4);
    for _ in 0..4 {
        w.push(16384);
    }
    assert!(w.is_full());
    assert_eq!(w.take_rms(), 16384);
    assert_eq!(w.len(), 0);
}

#[test]
fn partial_window_rms_uses_actual_length() {
    let mut w = Window::new(4);
    w.push(32768);
    w.push(0);
    // mean square = 2^30 / 2 = 536870912; isqrt = 23170.
    assert_eq!(w.take_rms(), 23170);
}

#[test]
fn negative_samples_square_like_positive_ones() {
    let mut w = Window::new(2);
    w.push(-8192);
    w.push(8192);
    assert_eq!(w.take_rms(), 8192);
}

#[test]
fn silence_maps_to_sentinel_level() {
    assert_eq!(level_for_rms(0, 0), SILENCE_DB_TENTHS);
    assert_eq!(level_for_rms(0, 0), -9990);
}

#[test]
fn positive_rms_keeps_measured_level() {
    assert_eq!(level_for_rms(100, -3000), -3000);
    assert_eq!(level_for_rms(32768, 0), 0);
}

#[test]
fn calibration_thresholds_sit_at_fixed_offsets() {
    let cal = Calibration::from_ambient(-400);
    assert_eq!(cal.ambient_db_tenths, -400);
    assert_eq!(cal.min_db_tenths, -250);
    assert_eq!(cal.max_db_tenths, 50);
}

#[test]
fn calibrator_collects_six_windows_and_averages_all_of_them() {
    let mut c = Calibrator::new(4);
    let mut n = 0;
    while !c.is_done() {
        c.push(8192);
        n += 1;
    }
    assert_eq!(n, 24);
    assert_eq!(c.ambient_rms(), 8192);
}

#[test]
fn percentage_saturates_at_the_thresholds() {
    let cal = Calibration::from_ambient(-400);
    assert_eq!(percentage(-250, &cal), 100); // at the soft threshold
    assert_eq!(percentage(-500, &cal), 100); // below it
    assert_eq!(percentage(-9990, &cal), 100); // silence sentinel
    assert_eq!(percentage(50, &cal), 0); // at the cut threshold
    assert_eq!(percentage(100, &cal), 0); // above it
}

#[test]
fn percentage_interpolates_linearly_between_thresholds() {
    let cal = Calibration::from_ambient(-400);
    assert_eq!(percentage(-100, &cal), 50); // midpoint
    assert_eq!(percentage(-200, &cal), 83); // 25000/300 = 83.33
    assert_eq!(percentage(0, &cal), 17); // 5000/300 = 16.67
    assert_eq!(percentage(-103, &cal), 51); // 15300/300
}

#[test]
fn percentage_decreases_as_level_rises() {
    let cal = Calibration::from_ambient(-400);
    let mut prev = 101;
    let mut db = -300;
    while db <= 100 {
        let p = percentage(db, &cal);
        assert!(p <= prev);
        assert!((0..=100).contains(&p));
        prev = p;
        db += 1;
    }
}
