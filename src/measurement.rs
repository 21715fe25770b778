use crate::encoding::{decoded_direction, decoded_micros, DirectionDuration};
use crate::speed::{clamp_of, fixed_one, speed_of, Speed};
use crate::step::{
    calibration_ordered, lemma_step_width, lower_bound_of, modulus, upper_bound_of, wrapping_diff,
    Step, SubStep,
};
use crate::time::{Duration, Instant};
use crate::{CalibrationData, Direction};
use vstd::arithmetic::div_mod::{
    lemma_div_pos_is_pos, lemma_mod_add_multiples_vanish, lemma_small_mod,
};
use vstd::prelude::*;

verus! {

/// Microseconds from `earlier` to `later`, or zero if `earlier` is later.
pub open spec fn elapsed(later: Instant, earlier: Instant) -> u64 {
    if later.micros >= earlier.micros {
        (later.micros - earlier.micros) as u64
    } else {
        0
    }
}

/// Sub-step position of the most recent edge of `m`: the lower bound of its
/// step when moving clockwise (entered from below), the upper bound when
/// moving counterclockwise (entered from above).
pub open spec fn transition_of(m: Measurement, calibration: Seq<u8>) -> u32 {
    match m.direction {
        Direction::Clockwise => lower_bound_of(m.step.0, calibration),
        Direction::CounterClockwise => upper_bound_of(m.step.0, calibration),
    }
}

/// Speed between the edges of two measurements in different steps.
pub open spec fn exact_speed_of(previous: Measurement, current: Measurement, calibration: Seq<u8>) -> i32 {
    speed_of(
        wrapping_diff(transition_of(current, calibration), transition_of(previous, calibration)) as i32,
        elapsed(current.step_instant, previous.step_instant),
    )
}

/// Whether the edge of `current` came after `previous` was sampled.
pub open spec fn first_in_step(previous: Measurement, current: Measurement) -> bool {
    current.step_instant.micros > previous.sample_instant.micros
}

/// Time from the previous sample to the most recent edge.
pub open spec fn window_before(previous: Measurement, current: Measurement) -> u64 {
    elapsed(current.step_instant, previous.sample_instant)
}

/// Time from the most recent edge to the current sample.
pub open spec fn window_after(current: Measurement) -> u64 {
    elapsed(current.sample_instant, current.step_instant)
}

/// Whether the bounds are taken over the window before the edge, in the
/// previous step, rather than over the window after it, in the current step.
pub open spec fn uses_window_before(previous: Measurement, current: Measurement) -> bool {
    first_in_step(previous, current) && window_before(previous, current) > window_after(current)
}

/// Lowest and highest speed that keep the encoder inside the step interval
/// it is known to have been in over the chosen window.
pub open spec fn speed_bounds_of(previous: Measurement, current: Measurement, calibration: Seq<u8>) -> (i32, i32) {
    let position = transition_of(current, calibration);
    if uses_window_before(previous, current) {
        let window = window_before(previous, current);
        (
            speed_of(wrapping_diff(position, upper_bound_of(previous.step.0, calibration)) as i32, window),
            speed_of(wrapping_diff(position, lower_bound_of(previous.step.0, calibration)) as i32, window),
        )
    } else {
        let window = window_after(current);
        (
            speed_of(wrapping_diff(lower_bound_of(current.step.0, calibration), position) as i32, window),
            speed_of(wrapping_diff(upper_bound_of(current.step.0, calibration), position) as i32, window),
        )
    }
}

/// The estimate for `current`: the exact speed after an edge, otherwise the
/// last known speed; either one limited to what is still feasible.
pub open spec fn estimate_of(last_known: i32, previous: Measurement, current: Measurement, calibration: Seq<u8>) -> i32 {
    let bounds = speed_bounds_of(previous, current, calibration);
    if previous.step != current.step {
        clamp_of(exact_speed_of(previous, current, calibration), bounds.0, bounds.1)
    } else {
        clamp_of(last_known, bounds.0, bounds.1)
    }
}

/// One reading of the encoder.
#[derive(Clone, Copy, PartialEq, Eq, Debug, Structural)]
pub struct Measurement {
    /// The step the encoder is at.
    pub step: Step,
    /// The direction of the most recent edge.
    pub direction: Direction,
    /// When the most recent edge happened.
    pub step_instant: Instant,
    /// When this reading was taken.
    pub sample_instant: Instant,
}

impl Measurement {
    /// A measurement from a packed hardware reading taken at `sample_instant`;
    /// an edge that would lie before the clock's origin is placed at the origin.
    pub fn new(dir_dur: DirectionDuration, steps: Step, sample_instant: Instant, clocks_per_us: u32) -> (r: Measurement)
        requires
            clocks_per_us > 0,
        ensures
            r.step == steps,
            r.direction == decoded_direction(dir_dur.0),
            r.sample_instant == sample_instant,
            r.step_instant.micros <= r.sample_instant.micros,
            r.step_instant.micros == if sample_instant.micros >= decoded_micros(dir_dur.0, clocks_per_us) {
                sample_instant.micros - decoded_micros(dir_dur.0, clocks_per_us)
            } else {
                0
            },
    {
        let (direction, duration) = dir_dur.decode(clocks_per_us);
        Measurement {
            step: steps,
            direction,
            step_instant: sample_instant.saturating_sub(duration),
            sample_instant,
        }
    }

    /// The last position known for certain: where the most recent edge was.
    pub fn measured_position(&self, calibration: &CalibrationData) -> (r: SubStep)
        ensures
            r.0 == transition_of(*self, calibration@),
    {
        match self.direction {
            Direction::Clockwise => self.step.lower_bound(calibration),
            Direction::CounterClockwise => self.step.upper_bound(calibration),
        }
    }

    /// Time from the most recent edge to this reading.
    pub fn time_since_transition(&self) -> (r: Duration)
        ensures
            r.micros == window_after(*self),
    {
        self.sample_instant.saturating_duration_since(self.step_instant)
    }
}

/// Speed between the edges of two measurements; meaningful when their steps differ.
pub fn calculate_speed(previous: Measurement, current: Measurement, calibration_data: &CalibrationData) -> (r: Speed)
    ensures
        r.0 == exact_speed_of(previous, current, calibration_data@),
{
    Speed::new(
        current.measured_position(calibration_data) - previous.measured_position(calibration_data),
        current.step_instant.saturating_duration_since(previous.step_instant),
    )
}

/// Lower and upper speed bounds for the interval between two measurements.
///
/// Of the two windows, from the previous sample to the edge and from the
/// edge to the current sample, the longer one gives the tighter bound; the
/// first is taken only when the edge came after the previous sample and
/// that window is strictly longer.
pub fn calculate_speed_bounds(previous: Measurement, current: Measurement, cali: &CalibrationData) -> (r: (Speed, Speed))
    ensures
        r.0.0 == speed_bounds_of(previous, current, cali@).0,
        r.1.0 == speed_bounds_of(previous, current, cali@).1,
{
    let measured_position = current.measured_position(cali);
    let first_measurement_in_step = current.step_instant.micros > previous.sample_instant.micros;
    let time_to_last_measurement = current.step_instant.saturating_duration_since(previous.sample_instant);
    let time_to_current_measurement = current.time_since_transition();
    let previous_sample_is_farther_away = time_to_last_measurement.micros > time_to_current_measurement.micros;
    if first_measurement_in_step && previous_sample_is_farther_away {
        // The edge left the previous step: measure back from it.
        let (lower_bound, upper_bound) = previous.step.bounds(cali);
        (
            Speed::new(measured_position - upper_bound, time_to_last_measurement),
            Speed::new(measured_position - lower_bound, time_to_last_measurement),
        )
    } else {
        let (lower_bound, upper_bound) = current.step.bounds(cali);
        (
            Speed::new(lower_bound - measured_position, time_to_current_measurement),
            Speed::new(upper_bound - measured_position, time_to_current_measurement),
        )
    }
}

/// Speed estimate for `current`: the exact speed when an edge was seen since
/// `previous`, otherwise `last_known_speed`; either one limited to the
/// feasible bounds, so that an estimate never carries the position out of
/// the step interval it is known to be in.
pub fn estimate_speed(last_known_speed: Speed, previous: Measurement, current: Measurement, calibration: &CalibrationData) -> (r: Speed)
    ensures
        r.0 == estimate_of(last_known_speed.0, previous, current, calibration@),
{
    let (lower, upper) = calculate_speed_bounds(previous, current, calibration);
    let speed = if previous.step != current.step {
        calculate_speed(previous, current, calibration)
    } else {
        last_known_speed
    };
    speed.clamp_to(lower, upper)
}

/// `speed_of` keeps the sign of the distance.
pub proof fn lemma_speed_sign(delta: i32, micros: u64)
    ensures
        delta <= 0 ==> speed_of(delta, micros) <= 0,
        delta >= 0 ==> speed_of(delta, micros) >= 0,
{
    if micros > 0 && micros <= i64::MAX {
        let scaled = if delta >= 0 {
            delta * fixed_one()
        } else {
            -delta * fixed_one()
        };
        lemma_div_pos_is_pos(scaled, micros as int);
    }
}

/// Distances on the circular domain between the two ends of a step of width
/// at most 256, read as signed numbers.
proof fn lemma_step_ends(lower: u32, upper: u32)
    requires
        wrapping_diff(upper, lower) <= 256,
    ensures
        0 <= wrapping_diff(upper, lower) as i32 <= 256,
        wrapping_diff(lower, upper) as i32 <= 0,
        wrapping_diff(lower, lower) as i32 == 0,
        wrapping_diff(upper, upper) as i32 == 0,
{
    let m = modulus();
    let k = wrapping_diff(upper, lower);
    let back = wrapping_diff(lower, upper);
    if upper >= lower {
        lemma_small_mod((upper - lower) as nat, m as nat);
        if k > 0 {
            lemma_mod_add_multiples_vanish(lower - upper, m);
            lemma_small_mod((m + lower - upper) as nat, m as nat);
        }
    } else {
        lemma_mod_add_multiples_vanish(upper - lower, m);
        lemma_small_mod((m + upper - lower) as nat, m as nat);
        lemma_small_mod((lower - upper) as nat, m as nat);
    }
    assert(back == 0 || back >= 0x8000_0000);
    assert(back >= 0x8000_0000 ==> (back as i32) < 0) by (bit_vector);
    assert(k <= 256 ==> k as i32 == k) by (bit_vector);
}

/// Between two measurements in the same step, under an ordered calibration,
/// standing still is always feasible: the lower speed bound is at most zero
/// and the upper one at least zero.
pub proof fn lemma_bounds_straddle_zero(previous: Measurement, current: Measurement, calibration: Seq<u8>)
    requires
        previous.step == current.step,
        calibration_ordered(calibration),
    ensures
        speed_bounds_of(previous, current, calibration).0 <= 0,
        0 <= speed_bounds_of(previous, current, calibration).1,
{
    let lower = lower_bound_of(current.step.0, calibration);
    let upper = upper_bound_of(current.step.0, calibration);
    lemma_step_width(current.step.0, calibration);
    lemma_step_ends(lower, upper);
    let position = transition_of(current, calibration);
    let window = if uses_window_before(previous, current) {
        window_before(previous, current)
    } else {
        window_after(current)
    };
    lemma_speed_sign(wrapping_diff(position, upper) as i32, window);
    lemma_speed_sign(wrapping_diff(position, lower) as i32, window);
    lemma_speed_sign(wrapping_diff(lower, position) as i32, window);
    lemma_speed_sign(wrapping_diff(upper, position) as i32, window);
}

/// Whenever the speed bounds are ordered, the estimate lies within them,
/// whether or not an edge was seen.
pub proof fn lemma_estimate_within_ordered_bounds(last_known: i32, previous: Measurement, current: Measurement, calibration: Seq<u8>)
    requires
        speed_bounds_of(previous, current, calibration).0 <= speed_bounds_of(previous, current, calibration).1,
    ensures
        speed_bounds_of(previous, current, calibration).0 <= estimate_of(last_known, previous, current, calibration),
        estimate_of(last_known, previous, current, calibration) <= speed_bounds_of(previous, current, calibration).1,
{
}

/// With no edge between two measurements, the speed estimate lies within the
/// speed bounds, under an ordered calibration.
pub proof fn lemma_estimate_within_bounds(last_known: i32, previous: Measurement, current: Measurement, calibration: Seq<u8>)
    requires
        previous.step == current.step,
        calibration_ordered(calibration),
    ensures
        speed_bounds_of(previous, current, calibration).0 <= estimate_of(last_known, previous, current, calibration),
        estimate_of(last_known, previous, current, calibration) <= speed_bounds_of(previous, current, calibration).1,
{
    lemma_bounds_straddle_zero(previous, current, calibration);
}

} // verus!
