//! End-to-end scenarios over the controller: calibration at -40 dB,
//! windows at various levels, transition deduplication and the watchdog.

use noisegate::calibrate::Calibration;
use noisegate::control::{ControlState, Controller, WatchdogOutcome};
use noisegate::level::level_for_rms;

fn controller_at_minus_40_db() -> Controller {
    // ambient -40.0 dB -> soft threshold -25.0 dB, cut threshold +5.0 dB
    let cal = Calibration::from_ambient(-400);
    Controller::new(cal, 4, 0)
}

#[test]
fn quiet_window_drives_full_percentage() {
    let mut c = controller_at_minus_40_db();
    let out = c.step(-500); // -50.0 dB, below the soft threshold
    assert_eq!(out.state, ControlState::Active(100));
    assert!(out.enable);
    assert!(out.log_transition);
    assert!(!c.is_interface_disabled());
}

#[test]
fn loud_window_cuts_the_interface() {
    let mut c = controller_at_minus_40_db();
    let out = c.step(100); // +10.0 dB, above the cut threshold
    assert_eq!(out.state, ControlState::Cut);
    assert!(!out.enable);
    assert!(out.log_transition);
    assert!(c.is_interface_disabled());
}

#[test]
fn midpoint_window_drives_half_percentage() {
    let mut c = controller_at_minus_40_db();
    let out = c.step(-100); // -10.0 dB, midpoint of [-25.0, +5.0]
    assert_eq!(out.state, ControlState::Active(50));
    assert!(out.enable);
}

#[test]
fn repeated_state_is_logged_only_once() {
    let mut c = controller_at_minus_40_db();
    let first = c.step(-100);
    let second = c.step(-100);
    assert!(first.log_transition);
    assert!(!second.log_transition);
    // the effector is still driven on the repeated window
    assert!(second.enable);
}

#[test]
fn nearby_percentages_are_distinct_states() {
    let mut c = controller_at_minus_40_db();
    let first = c.step(-100); // Active(50)
    let second = c.step(-103); // Active(51)
    assert_eq!(first.state, ControlState::Active(50));
    assert_eq!(second.state, ControlState::Active(51));
    assert!(second.log_transition);
}

#[test]
fn full_pipeline_from_samples_to_state() {
    let mut c = controller_at_minus_40_db();
    let mut now = 0;
    while !c.window_full() {
        c.push_sample(16384, now);
        now += 1;
    }
    let rms = c.finish_window();
    assert_eq!(rms, 16384);
    // app-side log10 of 16384/32768 gives -6.0 dB -> -60 tenths
    let db = level_for_rms(rms, -60);
    let out = c.step(db);
    // -6.0 dB sits between -25.0 and +5.0: 100*(50-(-60))/300 = 36.67 -> 37
    assert_eq!(out.state, ControlState::Active(37));
}

#[test]
fn silent_window_resolves_through_the_sentinel() {
    let mut c = controller_at_minus_40_db();
    while !c.window_full() {
        c.push_sample(0, 0);
    }
    let rms = c.finish_window();
    assert_eq!(rms, 0);
    let db = level_for_rms(rms, 0);
    assert_eq!(db, -9990);
    let out = c.step(db);
    assert_eq!(out.state, ControlState::Active(100));
}

#[test]
fn watchdog_restores_once_after_prolonged_silence() {
    let mut c = controller_at_minus_40_db();
    // previously Cut: the interface is disabled
    let out = c.step(100);
    assert_eq!(out.state, ControlState::Cut);
    assert!(c.is_interface_disabled());
    // a partial window is pending
    c.push_sample(1000, 0);
    assert_eq!(c.window_len(), 1);
    // 3.1 s with no further sample
    let first = c.watchdog_tick(3100);
    assert_eq!(first, WatchdogOutcome::Skip { restore: true });
    assert!(!c.is_interface_disabled());
    assert_eq!(c.window_len(), 0);
    // no level or state was computed for that cycle
    assert_eq!(c.last_state(), Some(ControlState::Cut));
    // still silent one cycle later: skip again, but no second restore
    let second = c.watchdog_tick(3200);
    assert_eq!(second, WatchdogOutcome::Skip { restore: false });
}

#[test]
fn watchdog_stays_quiet_while_samples_are_recent() {
    let mut c = controller_at_minus_40_db();
    c.push_sample(1000, 500);
    assert_eq!(c.watchdog_tick(3400), WatchdogOutcome::Proceed);
    assert_eq!(c.window_len(), 1);
    // exactly at the bound nothing fires yet
    assert_eq!(c.watchdog_tick(3500), WatchdogOutcome::Proceed);
    assert_eq!(c.watchdog_tick(3501), WatchdogOutcome::Skip { restore: false });
}
