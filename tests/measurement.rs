use pio_speed_encoder_logic::{
    calculate_speed, calculate_speed_bounds, estimate_speed, Direction, DirectionDuration,
    Duration, Instant, Measurement, Speed, Step, SubStep, EQUAL_STEPS,
};

#[test]
fn construct_measurement_from_data() {
    let time = Instant::from_secs(1);
    assert_eq!(
        Measurement::new(DirectionDuration(0 - 50), Step::new(42), time, 10),
        Measurement {
            step: Step::new(42),
            direction: Direction::CounterClockwise,
            step_instant: time - Duration::from_micros(65),
            sample_instant: time
        }
    );
}

#[test]
fn measurement_last_smaple_time_is_further_away_from_step_time() {
    let delta = Duration::from_millis(10);
    let last_known_position_time = Instant::from_millis(30);
    // Steps start at two rather than zero, so that x + 0 and x - 0 differ.
    let speed = calculate_speed_bounds(
        Measurement {
            step: Step::new(2),
            direction: Direction::Clockwise,
            step_instant: Instant::from_millis(0),
            sample_instant: last_known_position_time - delta,
        },
        Measurement {
            step: Step::new(12),
            direction: Direction::Clockwise,
            step_instant: last_known_position_time,
            sample_instant: last_known_position_time + delta / 2,
        },
        &EQUAL_STEPS,
    );
    assert_eq!(
        speed,
        (
            Speed::new(SubStep::new(64 * 9), delta),
            Speed::new(SubStep::new(64 * 10), delta)
        )
    );
}

#[test]
fn measurement_current_smaple_time_is_further_away_from_step_time() {
    // The longer window lies within the current step, so the previous
    // measurement plays no part.
    let delta = Duration::from_millis(10);
    let last_known_position_time = Instant::from_millis(30);
    let speed = calculate_speed_bounds(
        Measurement {
            step: Step::new(0),
            direction: Direction::Clockwise,
            step_instant: Instant::from_millis(0),
            sample_instant: last_known_position_time - delta / 2,
        },
        Measurement {
            step: Step::new(10),
            direction: Direction::Clockwise,
            step_instant: last_known_position_time,
            sample_instant: last_known_position_time + delta,
        },
        &EQUAL_STEPS,
    );
    assert_eq!(
        speed,
        (
            Speed::new(SubStep::new(0), delta),
            Speed::new(SubStep::new(64), delta)
        )
    );
}

#[test]
fn speed_calculation() {
    let speed = calculate_speed(
        Measurement {
            step: Step::new(10),
            direction: Direction::Clockwise,
            step_instant: Instant::from_millis(10),
            sample_instant: Instant::from_millis(10),
        },
        Measurement {
            step: Step::new(20),
            direction: Direction::Clockwise,
            step_instant: Instant::from_millis(20),
            sample_instant: Instant::from_millis(20),
        },
        &EQUAL_STEPS,
    );
    assert_eq!(
        speed,
        Speed::new(SubStep::new(10 * 64), Duration::from_millis(10))
    )
}

#[test]
fn testing_inter_step_bounds() {
    let speed = calculate_speed_bounds(
        Measurement {
            step: Step::new(3),
            direction: Direction::Clockwise,
            step_instant: Instant::from_millis(0),
            sample_instant: Instant::from_millis(0),
        },
        Measurement {
            step: Step::new(3),
            direction: Direction::Clockwise,
            step_instant: Instant::from_millis(0),
            sample_instant: Instant::from_millis(5),
        },
        &EQUAL_STEPS,
    );
    assert_eq!(
        speed,
        (
            Speed::new(SubStep::new(0), Duration::from_millis(10)),
            Speed::new(SubStep::new(64), Duration::from_millis(5))
        )
    )
}

#[test]
fn construct_mesurement_from_data() {
    let time = Instant::from_secs(1);
    assert_eq!(
        Measurement::new(DirectionDuration(0 - 50), Step::new(42), time, 10),
        Measurement {
            step: Step::new(42),
            direction: Direction::CounterClockwise,
            step_instant: time - Duration::from_micros(65),
            sample_instant: time
        }
    );
}

#[test]
fn mesurement_last_smaple_time_is_further_away_from_step_time() {
    let delta = Duration::from_millis(10);
    let last_known_position_time = Instant::from_millis(30);
    let speed = calculate_speed_bounds(
        Measurement {
            step: Step::new(0),
            direction: Direction::Clockwise,
            step_instant: Instant::from_millis(0),
            sample_instant: last_known_position_time - delta,
        },
        Measurement {
            step: Step::new(10),
            direction: Direction::Clockwise,
            step_instant: last_known_position_time,
            sample_instant: last_known_position_time + delta / 2,
        },
        &EQUAL_STEPS,
    );
    assert_eq!(
        speed,
        (
            Speed::new(SubStep::new(64 * 9), delta),
            Speed::new(SubStep::new(64 * 10), delta)
        )
    );
}

#[test]
fn mesurement_current_smaple_time_is_further_away_from_step_time() {
    let delta = Duration::from_millis(10);
    let last_known_position_time = Instant::from_millis(30);
    let speed = calculate_speed_bounds(
        Measurement {
            step: Step::new(0),
            direction: Direction::Clockwise,
            step_instant: Instant::from_millis(0),
            sample_instant: last_known_position_time - delta / 2,
        },
        Measurement {
            step: Step::new(10),
            direction: Direction::Clockwise,
            step_instant: last_known_position_time,
            sample_instant: last_known_position_time + delta,
        },
        &EQUAL_STEPS,
    );
    assert_eq!(
        speed,
        (
            Speed::new(SubStep::new(0), delta),
            Speed::new(SubStep::new(64), delta)
        )
    );
}

#[test]
fn edge_before_clock_origin_is_placed_at_origin() {
    let m = Measurement::new(DirectionDuration(-50), Step::new(1), Instant::from_micros(20), 10);
    assert_eq!(m.step_instant, Instant::from_micros(0));
    assert_eq!(m.time_since_transition(), Duration::from_micros(20));
}

#[test]
fn measured_position_follows_direction() {
    let mut m = Measurement {
        step: Step::new(5),
        direction: Direction::Clockwise,
        step_instant: Instant::from_millis(0),
        sample_instant: Instant::from_millis(7),
    };
    assert_eq!(m.measured_position(&EQUAL_STEPS), SubStep::new(320));
    m.direction = Direction::CounterClockwise;
    assert_eq!(m.measured_position(&EQUAL_STEPS), SubStep::new(384));
    assert_eq!(m.time_since_transition(), Duration::from_millis(7));
}

#[test]
fn counterclockwise_speed_is_negative() {
    let prev = Measurement {
        step: Step::new(10),
        direction: Direction::CounterClockwise,
        step_instant: Instant::from_millis(10),
        sample_instant: Instant::from_millis(12),
    };
    let curr = Measurement {
        step: Step::new(8),
        direction: Direction::CounterClockwise,
        step_instant: Instant::from_millis(20),
        sample_instant: Instant::from_millis(21),
    };
    assert_eq!(
        calculate_speed(prev, curr, &EQUAL_STEPS),
        Speed::new(SubStep::new(-128), Duration::from_millis(10))
    );
}

#[test]
fn estimate_without_edge_stays_within_bounds() {
    let prev = Measurement {
        step: Step::new(3),
        direction: Direction::Clockwise,
        step_instant: Instant::from_millis(0),
        sample_instant: Instant::from_millis(2),
    };
    let curr = Measurement {
        step: Step::new(3),
        direction: Direction::Clockwise,
        step_instant: Instant::from_millis(0),
        sample_instant: Instant::from_millis(8),
    };
    let (low, high) = calculate_speed_bounds(prev, curr, &EQUAL_STEPS);
    assert_eq!(low, Speed::stopped());
    assert_eq!(high, Speed::new(SubStep::new(64), Duration::from_millis(8)));
    for last in [Speed::min(), Speed(-5), Speed::stopped(), Speed(100), Speed(8388), Speed::max()] {
        let estimate = estimate_speed(last, prev, curr, &EQUAL_STEPS);
        assert!(low <= estimate && estimate <= high);
    }
    assert_eq!(estimate_speed(Speed(100), prev, curr, &EQUAL_STEPS), Speed(100));
    assert_eq!(estimate_speed(Speed::max(), prev, curr, &EQUAL_STEPS), high);
    assert_eq!(estimate_speed(Speed(-5), prev, curr, &EQUAL_STEPS), low);
}

#[test]
fn estimate_after_edge_is_exact() {
    let prev = Measurement {
        step: Step::new(3),
        direction: Direction::Clockwise,
        step_instant: Instant::from_millis(0),
        sample_instant: Instant::from_millis(2),
    };
    let curr = Measurement {
        step: Step::new(4),
        direction: Direction::Clockwise,
        step_instant: Instant::from_millis(8),
        sample_instant: Instant::from_millis(9),
    };
    assert_eq!(
        estimate_speed(Speed::max(), prev, curr, &EQUAL_STEPS),
        Speed::new(SubStep::new(64), Duration::from_millis(8))
    );
}
