use afk::config::{Config, StepError};
use afk::motion::{get_coordinate_deltas, step};

fn config(min_distance: i32, max_distance: i32, min_delay: u64, max_delay: u64) -> Config {
    Config { debug: false, verbose: 0, max_distance, min_distance, max_delay, min_delay }
}

#[test]
fn fail_fast_on_bad_distance_bounds() {
    let mut rng = rand::thread_rng();
    let c = config(50, 10, 5, 30);
    assert_eq!(step(&c, &mut rng), Err(StepError::InvalidDistanceBounds));
    assert_eq!(get_coordinate_deltas(&c, &mut rng), Err(StepError::InvalidDistanceBounds));
}

#[test]
fn fail_fast_on_bad_delay_bounds() {
    let mut rng = rand::thread_rng();
    // Distance bounds valid: the delay check must still fire, and first.
    let c = config(1, 100, 30, 5);
    assert_eq!(step(&c, &mut rng), Err(StepError::InvalidDelayBounds));
}

#[test]
fn delay_check_fires_before_distance_check() {
    let mut rng = rand::thread_rng();
    let c = config(50, 10, 30, 5);
    assert_eq!(step(&c, &mut rng), Err(StepError::InvalidDelayBounds));
}

#[test]
fn zero_range_determinism() {
    let mut rng = rand::thread_rng();
    let c = config(0, 0, 5, 5);
    for _ in 0..100 {
        let plan = step(&c, &mut rng).unwrap();
        assert_eq!(plan.dx, 0);
        assert_eq!(plan.dy, 0);
        assert_eq!(plan.distance, 0);
        assert_eq!(plan.sleep_seconds, 5);
    }
}

#[test]
fn sampled_values_stay_in_bounds() {
    let mut rng = rand::thread_rng();
    let c = config(1, 100, 5, 30);
    for _ in 0..500 {
        let plan = step(&c, &mut rng).unwrap();
        assert!(1 <= plan.distance && plan.distance <= 100);
        assert!(5 <= plan.sleep_seconds && plan.sleep_seconds <= 30);
        assert!(plan.dx.abs() <= plan.distance);
    }
}

#[test]
fn displacement_lies_on_truncated_circle() {
    let mut rng = rand::thread_rng();
    let c = config(0, 100, 5, 30);
    for _ in 0..500 {
        let plan = step(&c, &mut rng).unwrap();
        let (dx, dy, d) = (plan.dx as i64, plan.dy as i64, plan.distance as i64);
        let reached = dx * dx + dy * dy;
        assert!(reached <= d * d);
        assert!(d * d < dx * dx + (dy.abs() + 1) * (dy.abs() + 1));
    }
}

#[test]
fn y_magnitude_matches_truncated_square_root() {
    let mut rng = rand::thread_rng();
    // With the radius pinned to 5, each |dx| forces one exact |dy|:
    // floor(sqrt(25 - dx*dx)).
    let expected: [i32; 6] = [5, 4, 4, 4, 3, 0];
    let c = config(5, 5, 1, 1);
    for _ in 0..200 {
        let (dx, dy, d) = get_coordinate_deltas(&c, &mut rng).unwrap();
        assert_eq!(d, 5);
        assert_eq!(dy.abs(), expected[dx.unsigned_abs() as usize]);
    }
}

#[test]
fn signs_are_roughly_symmetric() {
    let mut rng = rand::thread_rng();
    // Fixed radius 10, so magnitudes are nonzero except when an axis lands
    // exactly on the other one; count signs only where the magnitude is
    // nonzero. Each count should sit near half, far inside [30%, 70%].
    let c = config(10, 10, 1, 1);
    let mut x_nonzero: u64 = 0;
    let mut x_negative: u64 = 0;
    let mut y_nonzero: u64 = 0;
    let mut y_negative: u64 = 0;
    for _ in 0..2000 {
        let (dx, dy, _) = get_coordinate_deltas(&c, &mut rng).unwrap();
        if dx != 0 {
            x_nonzero += 1;
            if dx < 0 {
                x_negative += 1;
            }
        }
        if dy != 0 {
            y_nonzero += 1;
            if dy < 0 {
                y_negative += 1;
            }
        }
    }
    assert!(x_nonzero > 1000);
    assert!(y_nonzero > 1000);
    assert!(x_negative * 10 >= x_nonzero * 3 && x_negative * 10 <= x_nonzero * 7);
    assert!(y_negative * 10 >= y_nonzero * 3 && y_negative * 10 <= y_nonzero * 7);
}

#[test]
fn samples_are_not_constant() {
    let mut rng = rand::thread_rng();
    // Would fail if a sampling wrapper pinned its result to one endpoint.
    let c = config(1, 100, 5, 30);
    let first = step(&c, &mut rng).unwrap();
    let mut saw_other_distance = false;
    let mut saw_other_sleep = false;
    for _ in 0..300 {
        let plan = step(&c, &mut rng).unwrap();
        saw_other_distance |= plan.distance != first.distance;
        saw_other_sleep |= plan.sleep_seconds != first.sleep_seconds;
    }
    assert!(saw_other_distance);
    assert!(saw_other_sleep);
}

#[test]
fn loop_stops_after_exactly_n_steps() {
    let mut rng = rand::thread_rng();
    // Four valid configurations, then an invalid one; later entries must
    // never be reached.
    let configs = vec![
        config(1, 100, 5, 30),
        config(0, 0, 5, 5),
        config(2, 2, 1, 1),
        config(1, 100, 5, 30),
        config(1, 100, 30, 5),
        config(1, 100, 5, 30),
    ];
    let mut calls: usize = 0;
    let mut outcome = None;
    for c in &configs {
        calls += 1;
        if let Err(e) = step(c, &mut rng) {
            outcome = Some(e);
            break;
        }
    }
    assert_eq!(calls, 5);
    assert_eq!(outcome, Some(StepError::InvalidDelayBounds));
}

#[test]
fn error_messages() {
    assert_eq!(
        StepError::InvalidDistanceBounds.message(),
        "min-distance is greater than max-distance"
    );
    assert_eq!(StepError::InvalidDelayBounds.message(), "min-delay is greater than max-delay");
}

#[test]
fn min_equal_max_fixes_the_cadence() {
    let mut rng = rand::thread_rng();
    let c = config(1, 100, 12, 12);
    for _ in 0..50 {
        assert_eq!(step(&c, &mut rng).unwrap().sleep_seconds, 12);
    }
}
