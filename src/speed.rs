use crate::step::SubStep;
use crate::time::Duration;
use vstd::arithmetic::div_mod::{
    lemma_fundamental_div_mod, lemma_fundamental_div_mod_converse, lemma_mod_bound,
};
use vstd::prelude::*;

verus! {

/// Sub-steps scaled by 2^20, the fixed-point factor of `Speed`.
pub open spec fn fixed_one() -> int {
    0x10_0000
}

/// Division that rounds toward zero, for a positive divisor.
pub open spec fn div_toward_zero(a: int, b: int) -> int {
    if a >= 0 {
        a / b
    } else {
        -((-a) / b)
    }
}

/// `x` saturated into the range of `i32`.
pub open spec fn saturate_i32(x: int) -> i32 {
    if x > i32::MAX {
        i32::MAX
    } else if x < i32::MIN {
        i32::MIN
    } else {
        x as i32
    }
}

/// The speed, in sub-steps per 2^20 microseconds, of moving `delta` sub-steps
/// in `micros` microseconds: rounded toward zero and saturated; an empty
/// duration saturates by the sign of `delta`, and a duration too long for the
/// signed working width gives zero.
pub open spec fn speed_of(delta: i32, micros: u64) -> i32 {
    if micros > i64::MAX {
        0
    } else if micros == 0 {
        if delta > 0 {
            i32::MAX
        } else if delta < 0 {
            i32::MIN
        } else {
            0
        }
    } else {
        saturate_i32(div_toward_zero(delta * fixed_one(), micros as int))
    }
}

/// Sub-steps covered at `speed` over `micros` microseconds: the speed's
/// two's-complement bits times the duration modulo 2^64, scaled down by 2^20
/// and truncated to the sub-step width.
pub open spec fn distance_of(speed: i32, micros: u64) -> u32 {
    ((((speed as u64) as int * micros) % 0x1_0000_0000_0000_0000) / fixed_one()) as u32
}

/// `x` limited to `[lower, upper]`: `lower` below it, `upper` above it.
pub open spec fn clamp_of(x: i32, lower: i32, upper: i32) -> i32 {
    if x < lower {
        lower
    } else if x > upper {
        upper
    } else {
        x
    }
}

/// Sub-steps per second, rounded down, for a speed in fixed point.
pub open spec fn per_second_of(speed: i32) -> int {
    (speed * 62500) / 65536
}

/// A signed speed in sub-steps per 2^20 microseconds.
#[derive(Clone, Copy, PartialEq, Eq, PartialOrd, Ord, Debug, Structural)]
pub struct Speed(pub i32);

impl Speed {
    /// The speed of moving `delta` sub-steps in `duration`.
    pub fn new(delta: SubStep, duration: Duration) -> (r: Speed)
        ensures
            r.0 == speed_of(delta.0 as i32, duration.micros),
    {
        let sub_steps: i32 = delta.raw();
        let micro_seconds: u64 = duration.as_micros();
        if micro_seconds > i64::MAX as u64 {
            return Speed::stopped();
        }
        if micro_seconds == 0 {
            return if sub_steps > 0 {
                Speed::max()
            } else if sub_steps < 0 {
                Speed::min()
            } else {
                Speed::stopped()
            };
        }
        let scaled: i64 = sub_steps as i64 * 0x10_0000;
        let quotient: i64 = if scaled >= 0 {
            (scaled as u64 / micro_seconds) as i64
        } else {
            let magnitude: u64 = (-scaled) as u64;
            -((magnitude / micro_seconds) as i64)
        };
        if quotient > i32::MAX as i64 {
            Speed::max()
        } else if quotient < i32::MIN as i64 {
            Speed::min()
        } else {
            Speed(quotient as i32)
        }
    }

    /// No motion.
    pub fn stopped() -> (r: Speed)
        ensures
            r.0 == 0,
    {
        Speed(0)
    }

    /// The lowest representable speed (fastest counterclockwise).
    pub fn min() -> (r: Speed)
        ensures
            r.0 == i32::MIN,
    {
        Speed(i32::MIN)
    }

    /// The highest representable speed (fastest clockwise).
    pub fn max() -> (r: Speed)
        ensures
            r.0 == i32::MAX,
    {
        Speed(i32::MAX)
    }

    /// This speed in sub-steps per second, rounded down.
    pub fn ticks_per_second(&self) -> (r: i32)
        ensures
            r == per_second_of(self.0),
    {
        let n: i64 = self.0 as i64 * 62500;
        if n >= 0 {
            (n / 65536) as i32
        } else {
            let magnitude: i64 = -n;
            let q: i64 = (magnitude + 65535) / 65536;
            proof {
                let d = 65536int;
                lemma_fundamental_div_mod(n as int, d);
                lemma_mod_bound(n as int, d);
                let fq = n as int / d;
                let fr = n as int % d;
                lemma_fundamental_div_mod_converse(magnitude + 65535, d, -fq, 65535 - fr);
            }
            (-q) as i32
        }
    }

    /// This speed limited to `[lower, upper]`.
    pub fn clamp_to(self, lower: Speed, upper: Speed) -> (r: Speed)
        ensures
            r.0 == clamp_of(self.0, lower.0, upper.0),
    {
        if self.0 < lower.0 {
            lower
        } else if self.0 > upper.0 {
            upper
        } else {
            self
        }
    }
}

impl core::ops::Mul<Duration> for Speed {
    type Output = SubStep;

    fn mul(self, rhs: Duration) -> (r: SubStep) {
        let product: u64 = (self.0 as u64).wrapping_mul(rhs.as_micros());
        proof {
            assert(product >> 20u64 == product / 0x10_0000u64) by (bit_vector);
        }
        SubStep((product >> 20u64) as u32)
    }
}

impl vstd::std_specs::ops::MulSpecImpl<Duration> for Speed {
    open spec fn obeys_mul_spec() -> bool {
        true
    }

    open spec fn mul_req(self, rhs: Duration) -> bool {
        true
    }

    open spec fn mul_spec(self, rhs: Duration) -> SubStep {
        SubStep(distance_of(self.0, rhs.micros))
    }
}

} // verus!
