use sensorloop::thresholds::next_interval;
use sensorloop::thresholds::FAST_MS;
use sensorloop::thresholds::LOWEST_RANGE;
use sensorloop::thresholds::MAX_RANGE;
use sensorloop::thresholds::SLOW_MS;
use sensorloop::thresholds::STEP_MS;

#[test]
fn high_y_raises_by_step() {
    assert_eq!(next_interval(2000, 4500, 500), 550);
    assert_eq!(next_interval(2000, MAX_RANGE, 500), 550);
    assert_eq!(next_interval(2000, 4095, 0), STEP_MS);
}

#[test]
fn high_y_saturates_at_the_top() {
    assert_eq!(next_interval(2000, 4500, u32::MAX), u32::MAX);
    assert_eq!(next_interval(2000, 4500, u32::MAX - 20), u32::MAX);
    assert_eq!(next_interval(2000, 4500, u32::MAX - STEP_MS), u32::MAX);
}

#[test]
fn low_y_lowers_by_step() {
    assert_eq!(next_interval(2000, 50, 500), 450);
    assert_eq!(next_interval(2000, LOWEST_RANGE, 500), 450);
    assert_eq!(next_interval(2000, 0, STEP_MS), 0);
}

#[test]
fn low_y_stops_at_zero() {
    assert_eq!(next_interval(2000, 50, 30), 0);
    assert_eq!(next_interval(2000, 0, 0), 0);
    assert_eq!(next_interval(2000, 0, STEP_MS - 1), 0);
}

#[test]
fn high_x_forces_slow() {
    assert_eq!(next_interval(MAX_RANGE, 50, 500), SLOW_MS);
    assert_eq!(next_interval(4500, 4500, 500), SLOW_MS);
    assert_eq!(next_interval(4095, 2000, 0), SLOW_MS);
}

#[test]
fn low_x_forces_fast() {
    assert_eq!(next_interval(50, 4500, 500), FAST_MS);
    assert_eq!(next_interval(LOWEST_RANGE, 50, 500), FAST_MS);
    assert_eq!(next_interval(0, 2000, u32::MAX), FAST_MS);
}

#[test]
fn between_thresholds_is_steady() {
    let mut ms: u32 = 500;
    for _ in 0..10 {
        ms = next_interval(2000, 2000, ms);
    }
    assert_eq!(ms, 500);
    assert_eq!(next_interval(LOWEST_RANGE + 1, MAX_RANGE - 1, 7), 7);
    assert_eq!(next_interval(MAX_RANGE - 1, LOWEST_RANGE + 1, 7), 7);
}

#[test]
fn x_override_wins_over_y_adjustment() {
    // Y would raise to 550; X's override runs second and discards it.
    assert_eq!(next_interval(4500, 4500, 500), SLOW_MS);
    // Y would lower to 450; the fast override wins instead.
    assert_eq!(next_interval(50, 50, 500), FAST_MS);
}
