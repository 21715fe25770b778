use pio_speed_encoder_logic::{Direction, Step, SubStep, EQUAL_STEPS};

#[test]
fn lower_upper_bounds() {
    assert_eq!(
        Step::new(-4).bounds(&EQUAL_STEPS),
        (SubStep::new(-256), SubStep::new(-192))
    );
    assert_eq!(Step::new(-3).lower_bound(&EQUAL_STEPS), SubStep::new(-192));
    assert_eq!(Step::new(-2).lower_bound(&EQUAL_STEPS), SubStep::new(-128));
    assert_eq!(Step::new(-1).lower_bound(&EQUAL_STEPS), SubStep::new(-64));
    assert_eq!(Step::new(0).lower_bound(&EQUAL_STEPS), SubStep::new(0));
    assert_eq!(Step::new(1).lower_bound(&EQUAL_STEPS), SubStep::new(64));
    assert_eq!(Step::new(2).lower_bound(&EQUAL_STEPS), SubStep::new(128));
    assert_eq!(Step::new(3).lower_bound(&EQUAL_STEPS), SubStep::new(192));
    assert_eq!(Step::new(4).lower_bound(&EQUAL_STEPS), SubStep::new(256));
}

#[test]
fn encodeing_into_i32() {
    assert_eq!(Step::new(-1).val(), -1);
    assert_eq!(Step::new(0).val(), 0);
    assert_eq!(Step::new(1).val(), 1);
}

#[test]
fn encodeing_sub_step_arithmatic() {
    assert_eq!(SubStep::new(1) + SubStep::new(1), SubStep::new(2));
    assert_eq!(SubStep::new(1) - SubStep::new(1), SubStep::new(0));
}

#[test]
fn check_substep_ranges() {
    assert_eq!(
        Step::new(-4).substep_range(&EQUAL_STEPS),
        SubStep::new(-256)..SubStep::new(-192)
    );
    assert_eq!(
        Step::new(-3).substep_range(&EQUAL_STEPS),
        SubStep::new(-192)..SubStep::new(-128)
    );
    assert_eq!(
        Step::new(-2).substep_range(&EQUAL_STEPS),
        SubStep::new(-128)..SubStep::new(-64)
    );
    assert_eq!(
        Step::new(-1).substep_range(&EQUAL_STEPS),
        SubStep::new(-64)..SubStep::new(0)
    );
    assert_eq!(
        Step::new(0).substep_range(&EQUAL_STEPS),
        SubStep::new(0)..SubStep::new(64)
    );
    assert_eq!(
        Step::new(1).substep_range(&EQUAL_STEPS),
        SubStep::new(64)..SubStep::new(128)
    );
    assert_eq!(
        Step::new(2).substep_range(&EQUAL_STEPS),
        SubStep::new(128)..SubStep::new(192)
    );
    assert_eq!(
        Step::new(3).substep_range(&EQUAL_STEPS),
        SubStep::new(192)..SubStep::new(256)
    );
    assert_eq!(
        Step::new(4).substep_range(&EQUAL_STEPS),
        SubStep::new(256)..SubStep::new(320)
    );
}

#[test]
fn step_into_i32() {
    assert_eq!(Step::new(-1).raw(), -1);
    assert_eq!(Step::new(0).raw(), 0);
    assert_eq!(Step::new(1).raw(), 1);
}

#[test]
fn step_sub_step_arithmatic() {
    assert_eq!(SubStep::new(1) + SubStep::new(1), SubStep::new(2));
    assert_eq!(SubStep::new(1) - SubStep::new(1), SubStep::new(0));
}

#[test]
fn substeps_role_over_before_steps_do() {
    for i in (32 - 6)..32 {
        assert_eq!(
            Step(10 + 0).lower_bound(&EQUAL_STEPS),
            Step(10 + (1u32 << i)).lower_bound(&EQUAL_STEPS),
        );
    }
}

#[test]
fn raw_round_trips_extremes() {
    for s in [i32::MIN, i32::MIN + 1, -1, 0, 1, i32::MAX - 1, i32::MAX] {
        assert_eq!(Step::new(s).raw(), s);
        assert_eq!(SubStep::new(s).raw(), s);
    }
}

#[test]
fn adjacent_ranges_touch() {
    for s in [-1000, -5, -1, 0, 1, 2, 3, 7, 1000, i32::MAX - 1] {
        assert_eq!(
            Step::new(s).substep_range(&EQUAL_STEPS).end,
            Step::new(s + 1).substep_range(&EQUAL_STEPS).start
        );
    }
    let uneven = [0, 50, 140, 200];
    for s in [-9, -4, -1, 0, 1, 2, 3, 4, 5] {
        assert_eq!(
            Step::new(s).upper_bound(&uneven),
            Step::new(s + 1).lower_bound(&uneven)
        );
    }
}

#[test]
fn uneven_calibration_bounds() {
    let uneven = [0, 50, 140, 200];
    assert_eq!(Step::new(1).lower_bound(&uneven), SubStep::new(50));
    assert_eq!(Step::new(2).bounds(&uneven), (SubStep::new(140), SubStep::new(200)));
    assert_eq!(Step::new(3).upper_bound(&uneven), SubStep::new(256));
    assert_eq!(Step::new(6).lower_bound(&uneven), SubStep::new(396));
}

#[test]
fn upper_bound_wraps_at_the_end_of_the_domain() {
    let last = Step(u32::MAX);
    assert_eq!(last.lower_bound(&EQUAL_STEPS), SubStep(0xffff_ffc0));
    assert_eq!(last.upper_bound(&EQUAL_STEPS), SubStep(0));
}

#[test]
fn comparing_steps() {
    assert_eq!(Step::new(0).comp(Step::new(1)), Some(Direction::CounterClockwise));
    assert_eq!(Step::new(1).comp(Step::new(0)), Some(Direction::Clockwise));
    assert_eq!(Step::new(5).comp(Step::new(5)), Some(Direction::CounterClockwise));
    assert_eq!(Step::new(0).comp(Step::new(i32::MIN)), None);
    assert_eq!(Step::new(-1).comp(Step::new(i32::MAX)), None);
    assert_eq!(Step::new(i32::MAX).comp(Step::new(i32::MIN)), Some(Direction::CounterClockwise));
}

#[test]
fn sub_step_arithmetic_wraps() {
    assert_eq!(SubStep::new(i32::MAX) + SubStep::new(1), SubStep::new(i32::MIN));
    assert_eq!(SubStep::new(0) - SubStep::new(1), SubStep::new(-1));
    assert_eq!(SubStep(u32::MAX) + SubStep(2), SubStep(1));
}
