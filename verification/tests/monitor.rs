use dahara_fuel_calc::telemetry::monitor::{
    StreamMonitor, WatchdogDecision, HEARTBEAT_INTERVAL_NS, STALL_RECONNECT_NS, STALL_WARN_NS,
    STATUS_INTERVAL_NS,
};

const MS: u64 = 1_000_000;
const S: u64 = 1_000_000_000;

#[test]
fn first_frame_is_logged_once() {
    let mut m = StreamMonitor::new(0);
    let d1 = m.on_frame(10 * MS);
    assert!(d1.log_first_frame);
    assert_eq!(d1.frame_count, 1);
    let d2 = m.on_frame(20 * MS);
    assert!(!d2.log_first_frame);
    assert_eq!(d2.frame_count, 2);
}

#[test]
fn status_every_half_second() {
    let mut m = StreamMonitor::new(0);
    assert!(!m.on_frame(100 * MS).send_status);
    let d = m.on_frame(500 * MS);
    assert!(d.send_status);
    m.status_sent(500 * MS);
    assert!(!m.on_frame(999 * MS).send_status);
    assert!(m.on_frame(1000 * MS).send_status);
}

#[test]
fn status_not_marked_until_sent() {
    let mut m = StreamMonitor::new(0);
    assert!(m.on_frame(STATUS_INTERVAL_NS).send_status);
    // The pump failed to send: the next frame asks again.
    assert!(m.on_frame(STATUS_INTERVAL_NS + MS).send_status);
}

#[test]
fn heartbeat_every_ten_seconds() {
    let mut m = StreamMonitor::new(0);
    assert!(!m.on_frame(9 * S).log_heartbeat);
    assert!(m.on_frame(HEARTBEAT_INTERVAL_NS).log_heartbeat);
    assert!(!m.on_frame(HEARTBEAT_INTERVAL_NS + 5 * S).log_heartbeat);
    assert!(m.on_frame(2 * HEARTBEAT_INTERVAL_NS).log_heartbeat);
}

#[test]
fn watchdog_warns_once_then_reconnects() {
    let mut m = StreamMonitor::new(0);
    m.on_frame(S);
    assert_eq!(m.on_watchdog_tick(2 * S), (WatchdogDecision::Wait, S));
    assert_eq!(m.on_watchdog_tick(S + STALL_WARN_NS), (WatchdogDecision::Wait, STALL_WARN_NS));
    assert_eq!(m.on_watchdog_tick(S + STALL_WARN_NS + 1).0, WatchdogDecision::WarnStall);
    assert_eq!(m.on_watchdog_tick(S + 60 * S).0, WatchdogDecision::Wait);
    assert_eq!(m.on_watchdog_tick(S + STALL_RECONNECT_NS).0, WatchdogDecision::Wait);
    assert_eq!(m.on_watchdog_tick(S + STALL_RECONNECT_NS + 1).0, WatchdogDecision::Reconnect);
}

#[test]
fn frame_rearms_stall_warning() {
    let mut m = StreamMonitor::new(0);
    assert_eq!(m.on_watchdog_tick(31 * S).0, WatchdogDecision::WarnStall);
    m.on_frame(32 * S);
    assert_eq!(m.on_watchdog_tick(40 * S).0, WatchdogDecision::Wait);
    assert_eq!(m.on_watchdog_tick(63 * S).0, WatchdogDecision::WarnStall);
}

#[test]
fn silence_counts_from_connection_start() {
    let mut m = StreamMonitor::new(5 * S);
    assert_eq!(m.on_watchdog_tick(96 * S).0, WatchdogDecision::Reconnect);
    // A clock reading before the last frame counts as no silence.
    let mut m = StreamMonitor::new(5 * S);
    assert_eq!(m.on_watchdog_tick(S), (WatchdogDecision::Wait, 0));
}
