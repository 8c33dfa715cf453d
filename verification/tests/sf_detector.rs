use dahara_fuel_calc::telemetry::sf_detector::SFDetector;

#[test]
fn first_valid_lap_does_not_fire() {
    let mut d = SFDetector::new();
    assert!(!d.on_lap(1));
}

#[test]
fn increasing_lap_fires_exactly_once() {
    let mut d = SFDetector::new();
    d.on_lap(1);
    assert!(d.on_lap(2));
    assert!(!d.on_lap(2));
}

#[test]
fn same_lap_does_not_fire() {
    let mut d = SFDetector::new();
    d.on_lap(5);
    assert!(!d.on_lap(5));
    assert!(!d.on_lap(5));
}

#[test]
fn zero_or_negative_lap_ignored() {
    let mut d = SFDetector::new();
    assert!(!d.on_lap(0));
    assert!(!d.on_lap(-1));
    d.on_lap(3);
    assert!(!d.on_lap(0));
    assert!(d.on_lap(4));
}

#[test]
fn reset_clears_state() {
    let mut d = SFDetector::new();
    d.on_lap(1);
    d.reset();
    assert!(!d.on_lap(1));
}

#[test]
fn lower_lap_after_higher_does_not_fire() {
    let mut d = SFDetector::new();
    d.on_lap(7);
    assert!(!d.on_lap(3));
    // The detector still remembers lap 7: lap 8 fires, lap 7 does not.
    assert!(!d.on_lap(7));
    assert!(d.on_lap(8));
}

#[test]
fn skipped_laps_fire_once() {
    let mut d = SFDetector::new();
    d.on_lap(2);
    assert!(d.on_lap(5));
    assert!(!d.on_lap(4));
    assert!(!d.on_lap(5));
}

#[test]
fn fires_exactly_on_new_maximum() {
    // Law: a fresh detector fires on a lap exactly when it is positive, some earlier
    // lap was positive, and it beats every earlier lap.
    let laps = [0, -3, 2, 2, 1, 3, 0, 3, 4, 10, 9, 11, i32::MAX, 5];
    let mut d = SFDetector::new();
    for (i, &lap) in laps.iter().enumerate() {
        let earlier = &laps[..i];
        let expected = lap > 0
            && earlier.iter().any(|&l| l > 0)
            && earlier.iter().all(|&l| l < lap);
        assert_eq!(d.on_lap(lap), expected, "lap index {}", i);
    }
}
