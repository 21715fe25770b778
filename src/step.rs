use crate::{CalibrationData, Direction};
use core::ops::Range;
use vstd::arithmetic::div_mod::{
    lemma_add_mod_noop, lemma_mod_add_multiples_vanish, lemma_mod_multiples_vanish, lemma_small_mod,
    lemma_sub_mod_noop,
};
use vstd::prelude::*;

verus! {

/// Size of the modular domain that steps and sub-steps live in.
pub open spec fn modulus() -> int {
    0x1_0000_0000
}

/// An encoder step (four steps per encoder cycle), held modulo 2^32.
#[derive(Clone, Copy, PartialEq, Eq, Debug, Structural)]
pub struct Step(pub u32);

/// A calibrated position (256 sub-steps per cycle under uniform calibration),
/// held modulo 2^32.
#[derive(Clone, Copy, PartialEq, Eq, Debug, Structural)]
pub struct SubStep(pub u32);

/// The phase of a step within its encoder cycle.
pub open spec fn phase_of(step: u32) -> int {
    (step % 4) as int
}

/// First sub-step of a step: whole cycles shifted into the sub-step domain,
/// plus the calibrated offset of the step's phase, modulo 2^32.
pub open spec fn lower_bound_of(step: u32, calibration: Seq<u8>) -> u32 {
    (((step / 4) * 256 + calibration[phase_of(step)]) % modulus()) as u32
}

/// The step that follows `step` on the circular domain.
pub open spec fn next_step(step: u32) -> u32 {
    ((step + 1) % modulus()) as u32
}

/// One past the last sub-step of a step: the first sub-step of the next step.
pub open spec fn upper_bound_of(step: u32, calibration: Seq<u8>) -> u32 {
    lower_bound_of(next_step(step), calibration)
}

/// A calibration table whose offsets do not decrease from one phase to the next.
pub open spec fn calibration_ordered(calibration: Seq<u8>) -> bool {
    &&& calibration.len() == 4
    &&& calibration[0] <= calibration[1]
    &&& calibration[1] <= calibration[2]
    &&& calibration[2] <= calibration[3]
}

/// Difference `a - b` on the circular domain.
pub open spec fn wrapping_diff(a: u32, b: u32) -> u32 {
    ((a - b) % modulus()) as u32
}

/// Direction of `to` as seen from `from` along the shortest path around the
/// circular domain; none when the two are exactly half the domain apart.
pub open spec fn comp_of(from: u32, to: u32) -> Option<Direction> {
    let delta = wrapping_diff(to, from);
    if delta == 0x8000_0000 {
        None
    } else if delta < 0x8000_0000 {
        Some(Direction::CounterClockwise)
    } else {
        Some(Direction::Clockwise)
    }
}

impl Step {
    /// Wraps a signed step count into the modular domain.
    pub fn new(step: i32) -> (r: Step)
        ensures
            r.0 == step as u32,
    {
        Step(step as u32)
    }

    fn phase(self) -> (r: usize)
        ensures
            r == phase_of(self.0),
            r < 4,
    {
        (self.0 % 4) as usize
    }

    /// The first sub-step covered by this step.
    pub fn lower_bound(self, calibration: &CalibrationData) -> (r: SubStep)
        ensures
            r.0 == lower_bound_of(self.0, calibration@),
    {
        self.start_position(calibration)
    }

    /// One past the last sub-step covered by this step.
    pub fn upper_bound(self, calibration: &CalibrationData) -> (r: SubStep)
        ensures
            r.0 == upper_bound_of(self.0, calibration@),
    {
        Step(self.0.wrapping_add(1)).start_position(calibration)
    }

    /// Both bounds, as `(lower_bound, upper_bound)`.
    pub fn bounds(&self, calibration: &CalibrationData) -> (r: (SubStep, SubStep))
        ensures
            r.0.0 == lower_bound_of(self.0, calibration@),
            r.1.0 == upper_bound_of(self.0, calibration@),
    {
        (self.lower_bound(calibration), self.upper_bound(calibration))
    }

    fn start_position(self, calibration: &CalibrationData) -> (r: SubStep)
        ensures
            r.0 == lower_bound_of(self.0, calibration@),
    {
        let whole_cycles: u32 = self.0 / 4;
        let partial_cycle: u32 = calibration[self.phase()] as u32;
        let shifted: u32 = whole_cycles.wrapping_mul(256);
        let r = shifted.wrapping_add(partial_cycle);
        proof {
            let m = modulus();
            let a = whole_cycles * 256;
            let b = partial_cycle as int;
            assert(shifted == a % m);
            lemma_add_mod_noop(a, b, m);
            assert(b % m == b) by {
                lemma_small_mod(b as nat, m as nat);
            }
            assert((shifted + b) % m == (a + b) % m);
            if shifted + b < m {
                lemma_small_mod((shifted + b) as nat, m as nat);
            } else {
                let x = shifted + b - m;
                lemma_mod_add_multiples_vanish(x, m);
                lemma_small_mod(x as nat, m as nat);
            }
        }
        SubStep(r)
    }

    /// The half-open sub-step interval `[lower_bound, upper_bound)` of this step.
    pub fn substep_range(&self, calibration: &CalibrationData) -> (r: Range<SubStep>)
        ensures
            r.start.0 == lower_bound_of(self.0, calibration@),
            r.end.0 == upper_bound_of(self.0, calibration@),
    {
        Range { start: self.lower_bound(calibration), end: self.upper_bound(calibration) }
    }

    /// The signed step count; inverts `new`.
    pub fn raw(&self) -> (r: i32)
        ensures
            r == self.0 as i32,
    {
        self.0 as i32
    }

    /// The signed step count; the same value as `raw`.
    pub fn val(&self) -> (r: i32)
        ensures
            r == self.0 as i32,
    {
        self.raw()
    }

    /// Direction of `other` relative to `self` along the shortest path around
    /// the circular domain; `None` when the two are exactly half the domain apart.
    pub fn comp(&self, other: Step) -> (r: Option<Direction>)
        ensures
            r == comp_of(self.0, other.0),
    {
        let delta = other.0.wrapping_sub(self.0);
        if delta == 0x8000_0000u32 {
            None
        } else if delta < 0x8000_0000u32 {
            Some(Direction::CounterClockwise)
        } else {
            Some(Direction::Clockwise)
        }
    }
}

impl SubStep {
    /// Wraps a signed sub-step count into the modular domain.
    pub fn new(step: i32) -> (r: SubStep)
        ensures
            r.0 == step as u32,
    {
        SubStep(step as u32)
    }

    /// The signed sub-step count; inverts `new`.
    pub fn raw(&self) -> (r: i32)
        ensures
            r == self.0 as i32,
    {
        self.0 as i32
    }

    /// The signed sub-step count; the same value as `raw`.
    pub fn val(&self) -> (r: i32)
        ensures
            r == self.0 as i32,
    {
        self.raw()
    }
}

impl core::ops::Add for SubStep {
    type Output = SubStep;

    fn add(self, rhs: SubStep) -> (r: SubStep) {
        SubStep(self.0.wrapping_add(rhs.0))
    }
}

impl vstd::std_specs::ops::AddSpecImpl for SubStep {
    open spec fn obeys_add_spec() -> bool {
        true
    }

    open spec fn add_req(self, rhs: SubStep) -> bool {
        true
    }

    open spec fn add_spec(self, rhs: SubStep) -> SubStep {
        SubStep(((self.0 + rhs.0) % modulus()) as u32)
    }
}

impl core::ops::Sub for SubStep {
    type Output = SubStep;

    fn sub(self, rhs: SubStep) -> (r: SubStep) {
        SubStep(self.0.wrapping_sub(rhs.0))
    }
}

impl vstd::std_specs::ops::SubSpecImpl for SubStep {
    open spec fn obeys_sub_spec() -> bool {
        true
    }

    open spec fn sub_req(self, rhs: SubStep) -> bool {
        true
    }

    open spec fn sub_spec(self, rhs: SubStep) -> SubStep {
        SubStep(wrapping_diff(self.0, rhs.0))
    }
}

/// Any signed step count survives the trip into the modular domain and back:
/// `Step::new(s).raw() == s` (and likewise for `SubStep`).
pub proof fn lemma_raw_round_trip(s: i32)
    ensures
        (s as u32) as i32 == s,
{
    assert((s as u32) as i32 == s) by (bit_vector);
}

/// The sub-step ranges of adjacent steps touch: the end of the range of
/// `Step::new(s)` is the start of the range of `Step::new(s + 1)`.
pub proof fn lemma_ranges_contiguous(s: i32, calibration: Seq<u8>)
    requires
        s < i32::MAX,
        calibration.len() == 4,
    ensures
        upper_bound_of(s as u32, calibration) == lower_bound_of((s + 1) as u32, calibration),
{
    let t = (s + 1) as i32;
    assert(s >= 0 ==> s as u32 == s) by (bit_vector);
    assert(s < 0 ==> s as u32 == s + 0x1_0000_0000) by (bit_vector);
    assert(t >= 0 ==> t as u32 == t) by (bit_vector);
    assert(t < 0 ==> t as u32 == t + 0x1_0000_0000) by (bit_vector);
    assert(next_step(s as u32) == t as u32);
}

/// Under an ordered calibration every step spans at most one cycle's worth
/// of sub-steps: its upper bound lies at most 256 above its lower bound.
pub proof fn lemma_step_width(step: u32, calibration: Seq<u8>)
    requires
        calibration_ordered(calibration),
    ensures
        wrapping_diff(upper_bound_of(step, calibration), lower_bound_of(step, calibration)) <= 256,
{
    let m = modulus();
    let p = phase_of(step);
    let next = next_step(step);
    let a = (step / 4) * 256 + calibration[p];
    let b = (next / 4) * 256 + calibration[phase_of(next)];
    lemma_sub_mod_noop(b, a, m);
    let width: int = if p < 3 {
        calibration[p + 1] - calibration[p]
    } else {
        256 + calibration[0] - calibration[3]
    };
    assert(0 <= width <= 256);
    if step < 0xffff_ffff {
        assert(next == step + 1);
        assert(b - a == width);
    } else {
        assert(next == 0);
        assert(b - a == m * -64 + width);
        lemma_mod_multiples_vanish(-64, width, m);
    }
    lemma_small_mod(width as nat, m as nat);
}

} // verus!
