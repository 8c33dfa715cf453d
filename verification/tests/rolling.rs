use dahara_fuel_calc::telemetry::rolling::CappedBuffer;

#[test]
fn capped_buffer_caps_at_size() {
    let mut buf = CappedBuffer::new(3);
    buf.push(1);
    buf.push(2);
    buf.push(3);
    buf.push(4);
    assert_eq!(buf.values(), &[2, 3, 4]);
    assert_eq!(buf.values().len(), 3);
}

#[test]
fn capped_buffer_clear() {
    let mut buf = CappedBuffer::new(3);
    buf.push(1);
    buf.push(2);
    buf.clear();
    assert_eq!(buf.values().len(), 0);
    assert!(buf.values().is_empty());
}

#[test]
fn capped_buffer_keeps_order_below_capacity() {
    let mut buf = CappedBuffer::new(5);
    buf.push(10);
    buf.push(20);
    assert_eq!(buf.values(), &[10, 20]);
}

#[test]
fn capped_buffer_holds_newest_of_long_history() {
    // The buffer always holds the newest `cap` values of everything pushed.
    let mut buf = CappedBuffer::new(5);
    let history: Vec<i64> = (0..23).map(|i| i * 7 - 40).collect();
    for (n, v) in history.iter().enumerate() {
        buf.push(*v);
        let seen = &history[..=n];
        let start = seen.len().saturating_sub(5);
        assert_eq!(buf.values(), &seen[start..]);
    }
}

#[test]
fn capped_buffer_usable_after_clear() {
    let mut buf = CappedBuffer::new(2);
    buf.push("a");
    buf.push("b");
    buf.push("c");
    buf.clear();
    buf.push("d");
    assert_eq!(buf.values(), &["d"]);
    buf.push("e");
    buf.push("f");
    assert_eq!(buf.values(), &["e", "f"]);
}

#[test]
fn capped_buffer_capacity_one() {
    let mut buf = CappedBuffer::new(1);
    buf.push(1.5f64);
    buf.push(2.5f64);
    assert_eq!(buf.values(), &[2.5]);
}
