//! Speed and position estimation for a quadrature encoder read through a
//! programmable-I/O state machine.
//!
//! Raw readings (a packed direction and elapsed-time word, and a step count)
//! become `Measurement`s; an `EncoderState` turns a stream of them into a
//! speed estimate and an interpolated sub-step position, using integer
//! arithmetic only.
use vstd::prelude::*;

pub mod encoding;
pub mod measurement;
pub mod speed;
pub mod state;
pub mod step;
pub mod time;

pub use encoding::DirectionDuration;
pub use measurement::{calculate_speed, calculate_speed_bounds, estimate_speed, Measurement};
pub use speed::Speed;
pub use state::EncoderState;
pub use step::{Step, SubStep};
pub use time::{Duration, Instant};

verus! {

/// Direction of travel of the encoder.
#[derive(Clone, Copy, PartialEq, Eq, Debug, Structural)]
pub enum Direction {
    Clockwise,
    CounterClockwise,
}

/// Sub-step offset of each of the four phases within one encoder cycle.
pub type CalibrationData = [u8; 4];

/// Calibration that assumes every step of a cycle is the same size.
pub const EQUAL_STEPS: CalibrationData = [0, 64, 128, 192];

/// Anything that reports encoder readings, such as a hardware-backed reader
/// or a stand-in for testing a control loop.
pub trait Encoder {
    /// Takes a new reading.
    fn update(&mut self);

    /// The current step.
    fn steps(&self) -> Step;

    /// The current position estimate in sub-steps.
    fn position(&self) -> SubStep;

    /// The current speed estimate.
    fn speed(&self) -> Speed;
}

} // verus!
