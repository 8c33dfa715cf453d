use dahara_fuel_calc::telemetry::coordinator::CrossingHistory;

#[test]
fn records_fuel_and_lap_times_in_step() {
    let mut h: CrossingHistory<f64> = CrossingHistory::new();
    for i in 0..8 {
        h.record(60.0 - 2.0 * i as f64, 90.0 + i as f64);
        assert_eq!(h.fuel_history().len(), h.lap_time_history().len());
        assert!(h.fuel_history().len() <= 5);
    }
    assert_eq!(h.fuel_history(), &[54.0, 52.0, 50.0, 48.0, 46.0]);
    assert_eq!(h.lap_time_history(), &[93.0, 94.0, 95.0, 96.0, 97.0]);
}

#[test]
fn reset_clears_histories_and_detector() {
    let mut h: CrossingHistory<i32> = CrossingHistory::new();
    assert!(!h.on_lap(1));
    assert!(h.on_lap(2));
    h.record(5, 6);
    h.reset_buffers();
    assert!(h.fuel_history().is_empty());
    assert!(h.lap_time_history().is_empty());
    // The first lap after a reset only arms the detector.
    assert!(!h.on_lap(3));
    assert!(h.on_lap(4));
}

#[test]
fn on_lap_leaves_histories_alone() {
    let mut h: CrossingHistory<i32> = CrossingHistory::new();
    h.record(1, 2);
    h.on_lap(1);
    h.on_lap(2);
    assert_eq!(h.fuel_history(), &[1]);
    assert_eq!(h.lap_time_history(), &[2]);
}
