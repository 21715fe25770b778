use crate::time::Duration;
use crate::Direction;
use vstd::prelude::*;

verus! {

/// Clock cycles the hardware program spends on each loop iteration.
pub const LOOP_DURATION: u32 = 13;

/// The counter value that a fresh edge in `direction` resets the raw reading to:
/// clockwise owns the half of the domain anchored at `i32::MIN`,
/// counterclockwise the half anchored at zero.
pub open spec fn anchor(direction: Direction) -> int {
    match direction {
        Direction::Clockwise => i32::MIN as int,
        Direction::CounterClockwise => 0,
    }
}

/// The direction that a raw reading decodes to.
pub open spec fn decoded_direction(raw: i32) -> Direction {
    if raw < 0 {
        Direction::CounterClockwise
    } else {
        Direction::Clockwise
    }
}

/// Loop iterations since the last edge that a raw reading decodes to:
/// the distance from the decoded direction's anchor, going down with wrap-around.
pub open spec fn decoded_iterations(raw: i32) -> int {
    if raw < 0 {
        -raw
    } else {
        0x8000_0000 - raw
    }
}

/// Clock cycles for `iterations` loop iterations, saturated at `u32::MAX`.
pub open spec fn cycles_of(iterations: int) -> int {
    if iterations * LOOP_DURATION > u32::MAX {
        u32::MAX as int
    } else {
        iterations * LOOP_DURATION
    }
}

/// Microseconds since the last edge that a raw reading decodes to.
pub open spec fn decoded_micros(raw: i32, clocks_per_us: u32) -> int {
    cycles_of(decoded_iterations(raw)) / (clocks_per_us as int)
}

/// The raw reading after `iterations` loop iterations away from the anchor
/// of `direction`, wrapping within the 32-bit signed domain.
pub open spec fn encoded(direction: Direction, iterations: u32) -> i32 {
    let x = anchor(direction) - iterations;
    (if x < i32::MIN {
        x + 0x1_0000_0000
    } else {
        x
    }) as i32
}

/// The packed reading of the hardware program: the direction of the last
/// edge and the number of loop iterations since it, in one signed word.
///
/// The counter can wrap: after about 2^31 iterations the decoded direction
/// flips and the decoded time restarts. Callers that poll often enough see
/// the encoder as stopped by then.
#[derive(Clone, Copy, PartialEq, Eq, Debug, Structural)]
pub struct DirectionDuration(pub i32);

impl DirectionDuration {
    pub fn new(val: i32) -> (r: DirectionDuration)
        ensures
            r.0 == val,
    {
        DirectionDuration(val)
    }

    /// The reading `iterations` loop iterations after an edge in `direction`.
    pub fn encode(direction: Direction, iterations: u32) -> (r: DirectionDuration)
        ensures
            r.0 == encoded(direction, iterations),
    {
        let anchor: i64 = match direction {
            Direction::Clockwise => i32::MIN as i64,
            Direction::CounterClockwise => 0,
        };
        let x: i64 = anchor - iterations as i64;
        let wrapped: i64 = if x < i32::MIN as i64 {
            x + 0x1_0000_0000
        } else {
            x
        };
        DirectionDuration(wrapped as i32)
    }

    /// Direction of the last edge and the time since it, for a hardware
    /// clock of `clocks_per_us` cycles per microsecond.
    ///
    /// A reading equal to a direction's anchor decodes to the other
    /// direction with the longest elapsed time.
    pub fn decode(self, clocks_per_us: u32) -> (r: (Direction, Duration))
        requires
            clocks_per_us > 0,
        ensures
            r.0 == decoded_direction(self.0),
            r.1.micros == decoded_micros(self.0, clocks_per_us),
    {
        let (iterations, direction) = if self.0 < 0 {
            (-(self.0 as i64), Direction::CounterClockwise)
        } else {
            (0x8000_0000i64 - self.0 as i64, Direction::Clockwise)
        };
        let product: u64 = iterations as u64 * LOOP_DURATION as u64;
        let cycles: u32 = if product > u32::MAX as u64 {
            u32::MAX
        } else {
            product as u32
        };
        let duration = Duration::from_micros((cycles / clocks_per_us) as u64);
        (direction, duration)
    }
}

/// Hardware clock cycles per microsecond for a system clock of `clock_hz`,
/// rounded to the nearest whole number.
pub fn clocks_per_us(clock_hz: u32) -> (r: u32)
    ensures
        r == (clock_hz + 500_000) / 1_000_000,
{
    ((clock_hz as u64 + 500_000) / 1_000_000) as u32
}

/// Decoding undoes encoding: a reading made `iterations` loop iterations
/// after an edge, for `iterations` in `[1, 2^31]`, decodes to that edge's
/// direction and that iteration count.
pub proof fn lemma_decode_encode(direction: Direction, iterations: u32)
    requires
        1 <= iterations <= 0x8000_0000,
    ensures
        decoded_direction(encoded(direction, iterations)) == direction,
        decoded_iterations(encoded(direction, iterations)) == iterations,
{
}

/// A reading sitting exactly on a direction's anchor is ambiguous: it
/// decodes to the other direction, 2^31 iterations after its edge.
pub proof fn lemma_anchor_decodes_opposite(direction: Direction)
    ensures
        decoded_direction(anchor(direction) as i32) != direction,
        decoded_iterations(anchor(direction) as i32) == 0x8000_0000,
{
}

} // verus!
