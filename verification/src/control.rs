//! The threshold state machine and inactivity watchdog.
//!
//! Each window's level is mapped, relative to the calibrated thresholds, to
//! a loudness percentage and a discrete control state: `Cut` (percentage 0,
//! interface disabled) or `Active` (percentage 1..=100, interface enabled).
//! The effector is driven on every window; the human-readable transition is
//! reported only when the state differs from the previous window's. A
//! watchdog restores the interface when no sample has arrived for too long.

use vstd::prelude::*;
use crate::calibrate::Calibration;
use crate::level::valid_level;
use crate::rms::{all_valid, is_rms};
use crate::rounding::{
    round_nearest_nonneg, round_nearest_u64, lemma_round_nearest_monotone,
    lemma_round_nearest_range,
};
use crate::samples::valid_sample;
use crate::window::{Window, MAX_WINDOW_CAPACITY};

verus! {

/// How long the sample stream may stay silent, in milliseconds, before the
/// watchdog restores the interface.
pub const WATCHDOG_SILENCE_MS: u64 = 3000;

/// The control decision a window resolves to.
#[derive(Clone, Copy, Debug, PartialEq, Eq, Structural)]
pub enum ControlState {
    /// Interface enabled; carries the loudness percentage, 1 to 100.
    Active(i32),
    /// Interface disabled: the level reached the cut threshold.
    Cut,
}

/// What one processed window asks of the caller.
#[derive(Clone, Copy, Debug, PartialEq, Eq, Structural)]
pub struct StepOutcome {
    /// The state this window resolved to.
    pub state: ControlState,
    /// Argument for the effector, invoked on every window.
    pub enable: bool,
    /// Whether the transition is to be reported (the state differs from the
    /// previous window's).
    pub log_transition: bool,
}

/// What one watchdog inspection asks of the caller.
#[derive(Clone, Copy, Debug, PartialEq, Eq, Structural)]
pub enum WatchdogOutcome {
    /// Samples are recent enough; process the window normally.
    Proceed,
    /// Prolonged silence: skip this cycle, and if `restore` holds, invoke
    /// the effector with `enabled` once.
    Skip { restore: bool },
}

/// Ghost model of the controller: everything its contracts speak of.
pub ghost struct ControllerModel {
    pub calibration: Calibration,
    pub capacity: int,
    pub buffered: Seq<i32>,
    pub last_state: Option<ControlState>,
    pub interface_disabled: bool,
    pub last_sample_ms: int,
}

/// The loudness percentage of a level against a calibration: 100 at or
/// below the soft threshold, 0 at or above the cut threshold, and in
/// between the linear interpolation rounded to the nearest integer.
pub open spec fn percentage_spec(db: int, cal: Calibration) -> int {
    if db <= cal.min_db_tenths {
        100
    } else if db >= cal.max_db_tenths {
        0
    } else {
        round_nearest_nonneg(
            100 * (cal.max_db_tenths - db),
            cal.max_db_tenths - cal.min_db_tenths,
        )
    }
}

/// The state a window resolves to: `Cut` exactly when the percentage is 0.
pub open spec fn next_state_spec(db: int, cal: Calibration) -> ControlState {
    if percentage_spec(db, cal) == 0 {
        ControlState::Cut
    } else {
        ControlState::Active(percentage_spec(db, cal) as i32)
    }
}

/// Whether a window's transition is reported, given the previous window's
/// state: only a state different from the last one is logged.
pub open spec fn step_logs(last: Option<ControlState>, db: int, cal: Calibration) -> bool {
    Some(next_state_spec(db, cal)) != last
}

/// The watchdog fires when no sample has arrived for more than the silence
/// bound.
pub open spec fn watchdog_due(last_sample_ms: int, now_ms: int) -> bool {
    now_ms - last_sample_ms > WATCHDOG_SILENCE_MS
}

/// One watchdog inspection over the model: on prolonged silence the partial
/// window is dropped, the interface is recorded enabled, and the effector
/// is asked to restore exactly when it was disabled; otherwise nothing
/// changes.
pub open spec fn watchdog_model(m: ControllerModel, now_ms: int) -> (ControllerModel, WatchdogOutcome) {
    if watchdog_due(m.last_sample_ms, now_ms) {
        (
            ControllerModel {
                calibration: m.calibration,
                capacity: m.capacity,
                buffered: Seq::empty(),
                last_state: m.last_state,
                interface_disabled: false,
                last_sample_ms: m.last_sample_ms,
            },
            WatchdogOutcome::Skip { restore: m.interface_disabled },
        )
    } else {
        (m, WatchdogOutcome::Proceed)
    }
}

/// The percentage always lies between 0 and 100.
pub proof fn lemma_percentage_range(db: int, cal: Calibration)
    requires
        cal.wf(),
    ensures
        0 <= percentage_spec(db, cal) <= 100,
{
    if cal.min_db_tenths < db < cal.max_db_tenths {
        let b = cal.max_db_tenths - cal.min_db_tenths;
        lemma_round_nearest_range(100 * (cal.max_db_tenths - db), b, 100);
    }
}

/// The percentage is monotonically decreasing in the level: a louder window
/// never yields a larger percentage.
pub proof fn lemma_percentage_antitone(db1: int, db2: int, cal: Calibration)
    requires
        cal.wf(),
        db1 <= db2,
    ensures
        percentage_spec(db1, cal) >= percentage_spec(db2, cal),
{
    lemma_percentage_range(db1, cal);
    lemma_percentage_range(db2, cal);
    if cal.min_db_tenths < db1 && db2 < cal.max_db_tenths {
        let b = cal.max_db_tenths - cal.min_db_tenths;
        lemma_round_nearest_monotone(
            100 * (cal.max_db_tenths - db2),
            100 * (cal.max_db_tenths - db1),
            b,
        );
    }
}

/// Two consecutive windows that resolve to the same percentage resolve to
/// the same state, so the second one is not logged: a repeated state is
/// reported only once, when it is first entered.
pub proof fn lemma_state_dedup(db1: int, db2: int, cal: Calibration)
    requires
        cal.wf(),
        percentage_spec(db1, cal) == percentage_spec(db2, cal),
    ensures
        next_state_spec(db2, cal) == next_state_spec(db1, cal),
        !step_logs(Some(next_state_spec(db1, cal)), db2, cal),
{
}

/// A watchdog restore happens at most once per silent spell: the first due
/// inspection restores exactly when the interface was disabled, and leaves
/// it recorded enabled, so a second due inspection never restores again.
pub proof fn lemma_watchdog_restores_once(m: ControllerModel, now1: int, now2: int)
    requires
        watchdog_due(m.last_sample_ms, now1),
    ensures
        watchdog_model(m, now1).1 == (WatchdogOutcome::Skip { restore: m.interface_disabled }),
        !watchdog_model(m, now1).0.interface_disabled,
        watchdog_model(watchdog_model(m, now1).0, now2).1 != (WatchdogOutcome::Skip {
            restore: true,
        }),
{
}

/// Computes the loudness percentage of a level against a calibration.
pub fn percentage(db_tenths: i32, cal: &Calibration) -> (p: i32)
    requires
        cal.wf(),
        valid_level(db_tenths as int),
    ensures
        p == percentage_spec(db_tenths as int, *cal),
        0 <= p <= 100,
{
    proof {
        lemma_percentage_range(db_tenths as int, *cal);
    }
    if db_tenths <= cal.min_db_tenths {
        100
    } else if db_tenths >= cal.max_db_tenths {
        0
    } else {
        let a: i64 = 100 * ((cal.max_db_tenths as i64) - (db_tenths as i64));
        let b: i64 = (cal.max_db_tenths as i64) - (cal.min_db_tenths as i64);
        let p = round_nearest_u64(a as u64, b as u64);
        p as i32
    }
}

/// The steady-state controller: the calibration, the current window, the
/// last reported state, whether the interface is currently disabled, and
/// when the last sample arrived (milliseconds on the caller's monotone
/// clock).
pub struct Controller {
    calibration: Calibration,
    window: Window,
    last_state: Option<ControlState>,
    interface_disabled: bool,
    last_sample_ms: u64,
}

impl View for Controller {
    type V = ControllerModel;

    closed spec fn view(&self) -> ControllerModel {
        ControllerModel {
            calibration: self.calibration,
            capacity: self.window.capacity_spec(),
            buffered: self.window@,
            last_state: self.last_state,
            interface_disabled: self.interface_disabled,
            last_sample_ms: self.last_sample_ms as int,
        }
    }
}

impl Controller {
    /// Well-formedness: the calibration is sound and the window holds at
    /// most `capacity` valid samples.
    pub open spec fn wf(&self) -> bool {
        &&& self@.calibration.wf()
        &&& 1 <= self@.capacity <= MAX_WINDOW_CAPACITY
        &&& self@.buffered.len() <= self@.capacity
        &&& all_valid(self@.buffered)
        &&& 0 <= self@.last_sample_ms <= u64::MAX
    }

    /// A fresh controller: empty window, nothing reported yet, interface
    /// enabled, last-sample clock at `now_ms`.
    pub fn new(calibration: Calibration, samples_per_window: usize, now_ms: u64) -> (c: Controller)
        requires
            calibration.wf(),
            1 <= samples_per_window <= MAX_WINDOW_CAPACITY,
        ensures
            c.wf(),
            c@.calibration == calibration,
            c@.capacity == samples_per_window,
            c@.buffered.len() == 0,
            c@.last_state is None,
            !c@.interface_disabled,
            c@.last_sample_ms == now_ms,
    {
        Controller {
            calibration,
            window: Window::new(samples_per_window),
            last_state: None,
            interface_disabled: false,
            last_sample_ms: now_ms,
        }
    }

    /// Whether the current window has reached capacity.
    pub fn window_full(&self) -> (b: bool)
        ensures
            b == (self@.buffered.len() >= self@.capacity),
    {
        self.window.is_full()
    }

    /// How many samples the current window holds.
    pub fn window_len(&self) -> (l: usize)
        ensures
            l == self@.buffered.len(),
    {
        self.window.len()
    }

    /// Whether the interface is currently recorded as disabled.
    pub fn is_interface_disabled(&self) -> (b: bool)
        ensures
            b == self@.interface_disabled,
    {
        self.interface_disabled
    }

    /// The state last resolved and reported on, if any.
    pub fn last_state(&self) -> (s: Option<ControlState>)
        ensures
            s == self@.last_state,
    {
        self.last_state
    }

    /// Buffers one received sample and notes its arrival time.
    pub fn push_sample(&mut self, s: i32, now_ms: u64)
        requires
            old(self).wf(),
            valid_sample(s as int),
            old(self)@.buffered.len() < old(self)@.capacity,
            now_ms >= old(self)@.last_sample_ms,
        ensures
            final(self).wf(),
            final(self)@.buffered == old(self)@.buffered.push(s),
            final(self)@.last_sample_ms == now_ms,
            final(self)@.calibration == old(self)@.calibration,
            final(self)@.capacity == old(self)@.capacity,
            final(self)@.last_state == old(self)@.last_state,
            final(self)@.interface_disabled == old(self)@.interface_disabled,
    {
        self.window.push(s);
        self.last_sample_ms = now_ms;
    }

    /// Inspects the watchdog before a window is reduced. On prolonged
    /// silence the caller must skip the cycle (no level or state is
    /// computed), the partial window is dropped, and the effector is to be
    /// restored exactly when the interface was disabled.
    pub fn watchdog_tick(&mut self, now_ms: u64) -> (r: WatchdogOutcome)
        requires
            old(self).wf(),
            now_ms >= old(self)@.last_sample_ms,
        ensures
            final(self).wf(),
            final(self)@ == watchdog_model(old(self)@, now_ms as int).0,
            r == watchdog_model(old(self)@, now_ms as int).1,
    {
        if now_ms - self.last_sample_ms > WATCHDOG_SILENCE_MS {
            let restore = self.interface_disabled;
            self.interface_disabled = false;
            self.window.clear();
            proof {
                assert(self@.buffered =~= Seq::<i32>::empty());
            }
            WatchdogOutcome::Skip { restore }
        } else {
            WatchdogOutcome::Proceed
        }
    }

    /// Consumes the current window into its RMS value and empties it.
    pub fn finish_window(&mut self) -> (rms: u64)
        requires
            old(self).wf(),
        ensures
            final(self).wf(),
            is_rms(old(self)@.buffered, rms as int),
            rms <= 32768,
            final(self)@.buffered.len() == 0,
            final(self)@.calibration == old(self)@.calibration,
            final(self)@.capacity == old(self)@.capacity,
            final(self)@.last_state == old(self)@.last_state,
            final(self)@.interface_disabled == old(self)@.interface_disabled,
            final(self)@.last_sample_ms == old(self)@.last_sample_ms,
    {
        self.window.take_rms()
    }

    /// Resolves one window's level into the control decision: the state,
    /// the effector argument (driven every window, state change or not),
    /// and whether the transition is to be reported.
    pub fn step(&mut self, db_tenths: i32) -> (out: StepOutcome)
        requires
            old(self).wf(),
            valid_level(db_tenths as int),
        ensures
            final(self).wf(),
            out.state == next_state_spec(db_tenths as int, old(self)@.calibration),
            out.enable == (percentage_spec(db_tenths as int, old(self)@.calibration) != 0),
            out.log_transition == step_logs(
                old(self)@.last_state,
                db_tenths as int,
                old(self)@.calibration,
            ),
            final(self)@.last_state == Some(out.state),
            final(self)@.interface_disabled == (percentage_spec(
                db_tenths as int,
                old(self)@.calibration,
            ) == 0),
            final(self)@.buffered == old(self)@.buffered,
            final(self)@.calibration == old(self)@.calibration,
            final(self)@.capacity == old(self)@.capacity,
            final(self)@.last_sample_ms == old(self)@.last_sample_ms,
    {
        let p = percentage(db_tenths, &self.calibration);
        let state = if p == 0 {
            self.interface_disabled = true;
            ControlState::Cut
        } else {
            self.interface_disabled = false;
            ControlState::Active(p)
        };
        let log_transition = match &self.last_state {
            None => true,
            Some(prev) => !(*prev == state),
        };
        self.last_state = Some(state);
        StepOutcome { state, enable: p != 0, log_transition }
    }
}

} // verus!
