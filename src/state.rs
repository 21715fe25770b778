use crate::measurement::{
    estimate_of, estimate_speed, exact_speed_of, lemma_estimate_within_bounds, speed_bounds_of,
    transition_of, window_after, Measurement,
};
use crate::speed::clamp_of;
use crate::step::calibration_ordered;
use crate::speed::{distance_of, Speed};
use crate::step::{modulus, Step, SubStep};
use crate::time::Duration;
use crate::{CalibrationData, EQUAL_STEPS};
use vstd::prelude::*;

verus! {

/// Idle timeout used by `EncoderState::new`, in microseconds.
pub const DEFAULT_IDLE_TIMEOUT_MICROS: u64 = 30_000;

/// What an `EncoderState` holds, as mathematical values.
pub struct EncoderStateView {
    pub calibration: Seq<u8>,
    pub idle_timeout: u64,
    /// `None` while no speed has been estimated since construction or the
    /// last idle timeout.
    pub last_known_speed: Option<i32>,
    pub prev_measurement: Measurement,
}

/// Whether `m` comes so long after its edge that the encoder counts as stopped.
pub open spec fn timed_out(s: EncoderStateView, m: Measurement) -> bool {
    window_after(m) >= s.idle_timeout
}

/// Speed after processing `m`: none after a timeout; zero for the first
/// measurement after construction or a timeout, which has no speed sample
/// to build on; otherwise the estimate from the previous measurement.
pub open spec fn next_speed(s: EncoderStateView, m: Measurement) -> Option<i32> {
    if timed_out(s, m) {
        None
    } else {
        match s.last_known_speed {
            None => Some(0),
            Some(last) => Some(estimate_of(last, s.prev_measurement, m, s.calibration)),
        }
    }
}

/// The state after processing `m`; only `m` is kept of the measurements.
pub open spec fn next_state_of(s: EncoderStateView, m: Measurement) -> EncoderStateView {
    EncoderStateView {
        calibration: s.calibration,
        idle_timeout: s.idle_timeout,
        last_known_speed: next_speed(s, m),
        prev_measurement: m,
    }
}

/// The reported speed: the last estimate, or stopped when there is none.
pub open spec fn speed_view(s: EncoderStateView) -> i32 {
    match s.last_known_speed {
        Some(speed) => speed,
        None => 0,
    }
}

/// The estimated position: the last edge, moved on at the reported speed for
/// the time since that edge.
pub open spec fn position_view(s: EncoderStateView) -> u32 {
    ((transition_of(s.prev_measurement, s.calibration) + distance_of(
        speed_view(s),
        window_after(s.prev_measurement),
    )) % modulus()) as u32
}

/// Speed and position estimator for one encoder, fed one measurement per poll.
pub struct EncoderState {
    calibration_data: CalibrationData,
    idle_timeout: Duration,
    last_known_speed: Option<Speed>,
    prev_measurement: Measurement,
}

impl View for EncoderState {
    type V = EncoderStateView;

    closed spec fn view(&self) -> EncoderStateView {
        EncoderStateView {
            calibration: self.calibration_data@,
            idle_timeout: self.idle_timeout.micros,
            last_known_speed: match self.last_known_speed {
                Some(speed) => Some(speed.0),
                None => None,
            },
            prev_measurement: self.prev_measurement,
        }
    }
}

impl EncoderState {
    /// The current speed estimate.
    pub fn speed(&self) -> (r: Speed)
        ensures
            r.0 == speed_view(self@),
    {
        match self.last_known_speed {
            Some(speed) => speed,
            None => Speed::stopped(),
        }
    }

    /// The current position estimate in sub-steps.
    pub fn position(&self) -> (r: SubStep)
        ensures
            r.0 == position_view(self@),
    {
        self.prev_measurement.measured_position(&self.calibration_data) + self.speed()
            * self.prev_measurement.time_since_transition()
    }

    /// The step of the latest measurement.
    pub fn steps(&self) -> (r: Step)
        ensures
            r == self@.prev_measurement.step,
    {
        self.prev_measurement.step
    }

    /// Whether no speed has been estimated since construction or the last
    /// idle timeout.
    pub fn is_stopped(&self) -> (r: bool)
        ensures
            r == (self@.last_known_speed is None),
    {
        self.last_known_speed.is_none()
    }

    /// The state after `new_data`, leaving `self` untouched.
    fn calculate_next_state(&self, new_data: Measurement) -> (r: EncoderState)
        ensures
            r@ == next_state_of(self@, new_data),
    {
        let last_known_speed = if new_data.time_since_transition().micros >= self.idle_timeout.micros {
            None
        } else {
            match self.last_known_speed {
                None => Some(Speed::stopped()),
                Some(last) => Some(
                    estimate_speed(last, self.prev_measurement, new_data, &self.calibration_data),
                ),
            }
        };
        EncoderState {
            calibration_data: self.calibration_data,
            idle_timeout: self.idle_timeout,
            last_known_speed,
            prev_measurement: new_data,
        }
    }

    /// Processes a new measurement.
    pub fn update_state(&mut self, measurement: Measurement)
        ensures
            final(self)@ == next_state_of(old(self)@, measurement),
    {
        *self = self.calculate_next_state(measurement);
    }

    /// An estimator with uniform calibration and the default idle timeout,
    /// assuming the encoder stands still at `initial_conditions`.
    pub fn new(initial_conditions: Measurement) -> (r: EncoderState)
        ensures
            r@.calibration == EQUAL_STEPS@,
            r@.idle_timeout == DEFAULT_IDLE_TIMEOUT_MICROS,
            r@.last_known_speed is None,
            r@.prev_measurement == initial_conditions,
    {
        EncoderState::with_config(
            initial_conditions,
            EQUAL_STEPS,
            Duration::from_micros(DEFAULT_IDLE_TIMEOUT_MICROS),
        )
    }

    /// An estimator with the given calibration and idle timeout, assuming
    /// the encoder stands still at `initial_conditions`.
    pub fn with_config(initial_conditions: Measurement, calibration_data: CalibrationData, idle_timeout: Duration) -> (r: EncoderState)
        ensures
            r@.calibration == calibration_data@,
            r@.idle_timeout == idle_timeout.micros,
            r@.last_known_speed is None,
            r@.prev_measurement == initial_conditions,
    {
        EncoderState {
            calibration_data,
            idle_timeout,
            last_known_speed: None,
            prev_measurement: initial_conditions,
        }
    }
}

/// A measurement that comes at least the idle timeout after its edge
/// leaves the encoder reported as stopped.
pub proof fn lemma_timeout_stops(s: EncoderStateView, m: Measurement)
    requires
        window_after(m) >= s.idle_timeout,
    ensures
        speed_view(next_state_of(s, m)) == 0,
{
}

/// After a timeout, estimation starts afresh: the first measurement in time
/// reports stopped, and the speed after the one following it depends on
/// those two measurements alone.
pub proof fn lemma_restart_after_timeout(
    s: EncoderStateView,
    stale: Measurement,
    first: Measurement,
    second: Measurement,
)
    requires
        timed_out(s, stale),
        !timed_out(s, first),
        !timed_out(s, second),
    ensures
        speed_view(next_state_of(next_state_of(s, stale), first)) == 0,
        speed_view(next_state_of(next_state_of(next_state_of(s, stale), first), second))
            == estimate_of(0, first, second, s.calibration),
{
}

/// An in-time measurement after an edge sets the speed to the exact
/// edge-to-edge speed, limited to the feasible bounds.
pub proof fn lemma_edge_speed_is_clamped(s: EncoderStateView, m: Measurement)
    requires
        !timed_out(s, m),
        s.last_known_speed is Some,
        s.prev_measurement.step != m.step,
    ensures
        speed_view(next_state_of(s, m)) == clamp_of(
            exact_speed_of(s.prev_measurement, m, s.calibration),
            speed_bounds_of(s.prev_measurement, m, s.calibration).0,
            speed_bounds_of(s.prev_measurement, m, s.calibration).1,
        ),
{
}

/// An in-time measurement without an edge keeps the previous speed unless
/// it has become infeasible, and then snaps it to the nearest bound; under an
/// ordered calibration the new speed lies within the bounds.
pub proof fn lemma_no_edge_speed_stays_feasible(s: EncoderStateView, m: Measurement)
    requires
        !timed_out(s, m),
        s.last_known_speed is Some,
        s.prev_measurement.step == m.step,
        calibration_ordered(s.calibration),
    ensures
        speed_view(next_state_of(s, m)) == clamp_of(
            speed_view(s),
            speed_bounds_of(s.prev_measurement, m, s.calibration).0,
            speed_bounds_of(s.prev_measurement, m, s.calibration).1,
        ),
        speed_bounds_of(s.prev_measurement, m, s.calibration).0 <= speed_view(next_state_of(s, m)),
        speed_view(next_state_of(s, m)) <= speed_bounds_of(s.prev_measurement, m, s.calibration).1,
{
    lemma_estimate_within_bounds(speed_view(s), s.prev_measurement, m, s.calibration);
}

} // verus!
