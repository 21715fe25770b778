use vstd::prelude::*;

verus! {

/// A span of time, counted in microseconds.
#[derive(Clone, Copy, PartialEq, Eq, Debug, Structural)]
pub struct Duration {
    pub micros: u64,
}

/// A point on a monotonic clock, counted in microseconds since its origin.
#[derive(Clone, Copy, PartialEq, Eq, Debug, Structural)]
pub struct Instant {
    pub micros: u64,
}

impl Duration {
    pub fn from_micros(micros: u64) -> (r: Duration)
        ensures
            r.micros == micros,
    {
        Duration { micros }
    }

    pub fn from_millis(millis: u64) -> (r: Duration)
        requires
            millis * 1000 <= u64::MAX,
        ensures
            r.micros == millis * 1000,
    {
        Duration { micros: millis * 1000 }
    }

    pub fn from_secs(secs: u64) -> (r: Duration)
        requires
            secs * 1_000_000 <= u64::MAX,
        ensures
            r.micros == secs * 1_000_000,
    {
        Duration { micros: secs * 1_000_000 }
    }

    pub fn as_micros(&self) -> (r: u64)
        ensures
            r == self.micros,
    {
        self.micros
    }
}

impl Instant {
    pub fn from_micros(micros: u64) -> (r: Instant)
        ensures
            r.micros == micros,
    {
        Instant { micros }
    }

    pub fn from_millis(millis: u64) -> (r: Instant)
        requires
            millis * 1000 <= u64::MAX,
        ensures
            r.micros == millis * 1000,
    {
        Instant { micros: millis * 1000 }
    }

    pub fn from_secs(secs: u64) -> (r: Instant)
        requires
            secs * 1_000_000 <= u64::MAX,
        ensures
            r.micros == secs * 1_000_000,
    {
        Instant { micros: secs * 1_000_000 }
    }

    pub fn as_micros(&self) -> (r: u64)
        ensures
            r == self.micros,
    {
        self.micros
    }

    /// Time elapsed from `earlier` to `self`, or zero if `earlier` is later.
    pub fn saturating_duration_since(&self, earlier: Instant) -> (r: Duration)
        ensures
            r.micros == if self.micros >= earlier.micros {
                self.micros - earlier.micros
            } else {
                0
            },
    {
        Duration { micros: self.micros.saturating_sub(earlier.micros) }
    }

    /// The instant `duration` before `self`, or the clock's origin if that
    /// would lie before it.
    pub fn saturating_sub(&self, duration: Duration) -> (r: Instant)
        ensures
            r.micros == if self.micros >= duration.micros {
                self.micros - duration.micros
            } else {
                0
            },
    {
        Instant { micros: self.micros.saturating_sub(duration.micros) }
    }
}

impl core::ops::Add<Duration> for Instant {
    type Output = Instant;

    fn add(self, rhs: Duration) -> (r: Instant) {
        Instant { micros: self.micros + rhs.micros }
    }
}

impl vstd::std_specs::ops::AddSpecImpl<Duration> for Instant {
    open spec fn obeys_add_spec() -> bool {
        true
    }

    open spec fn add_req(self, rhs: Duration) -> bool {
        self.micros + rhs.micros <= u64::MAX
    }

    open spec fn add_spec(self, rhs: Duration) -> Instant {
        Instant { micros: (self.micros + rhs.micros) as u64 }
    }
}

impl core::ops::Sub<Duration> for Instant {
    type Output = Instant;

    fn sub(self, rhs: Duration) -> (r: Instant) {
        Instant { micros: self.micros - rhs.micros }
    }
}

impl vstd::std_specs::ops::SubSpecImpl<Duration> for Instant {
    open spec fn obeys_sub_spec() -> bool {
        true
    }

    open spec fn sub_req(self, rhs: Duration) -> bool {
        rhs.micros <= self.micros
    }

    open spec fn sub_spec(self, rhs: Duration) -> Instant {
        Instant { micros: (self.micros - rhs.micros) as u64 }
    }
}

impl core::ops::Sub<Instant> for Instant {
    type Output = Duration;

    fn sub(self, rhs: Instant) -> (r: Duration) {
        Duration { micros: self.micros - rhs.micros }
    }
}

impl vstd::std_specs::ops::SubSpecImpl<Instant> for Instant {
    open spec fn obeys_sub_spec() -> bool {
        true
    }

    open spec fn sub_req(self, rhs: Instant) -> bool {
        rhs.micros <= self.micros
    }

    open spec fn sub_spec(self, rhs: Instant) -> Duration {
        Duration { micros: (self.micros - rhs.micros) as u64 }
    }
}

impl core::ops::Div<u32> for Duration {
    type Output = Duration;

    fn div(self, rhs: u32) -> (r: Duration) {
        Duration { micros: self.micros / (rhs as u64) }
    }
}

impl vstd::std_specs::ops::DivSpecImpl<u32> for Duration {
    open spec fn obeys_div_spec() -> bool {
        true
    }

    open spec fn div_req(self, rhs: u32) -> bool {
        rhs != 0
    }

    open spec fn div_spec(self, rhs: u32) -> Duration {
        Duration { micros: (self.micros / (rhs as u64)) as u64 }
    }
}

} // verus!
