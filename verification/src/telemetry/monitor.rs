//! Decisions of the telemetry pump: what to log, when to report the connection status,
//! and when a silent connection is given up. Times are monotonic nanoseconds.

use vstd::prelude::*;

verus! {

/// Minimum time between two "connected" status events.
pub const STATUS_INTERVAL_NS: u64 = 500_000_000;

/// Time between two "alive" log lines.
pub const HEARTBEAT_INTERVAL_NS: u64 = 10_000_000_000;

/// Silence after which a warning is logged (once per silence).
pub const STALL_WARN_NS: u64 = 30_000_000_000;

/// Silence after which the connection is dropped and made again.
pub const STALL_RECONNECT_NS: u64 = 90_000_000_000;

/// Period of the watchdog that checks for silence.
pub const WATCHDOG_PERIOD_MS: u64 = 1_000;

/// Time from `since` to `now`, zero if `now` is earlier (as `Instant::elapsed`).
pub open spec fn elapsed(since: u64, now: u64) -> int {
    if now >= since {
        now - since
    } else {
        0
    }
}

/// What the pump does with a frame besides handing it to the fuel logic.
#[derive(Clone, Copy, Debug, PartialEq, Eq, Structural)]
pub struct FrameDecision {
    /// Log the first frame of the connection.
    pub log_first_frame: bool,
    /// Log an "alive" line with the frame count.
    pub log_heartbeat: bool,
    /// Send a "connected" status event.
    pub send_status: bool,
    /// Frames received on this connection, this one included.
    pub frame_count: u64,
}

/// What the pump does on a watchdog tick.
#[derive(Clone, Copy, Debug, PartialEq, Eq, Structural)]
pub enum WatchdogDecision {
    /// The connection has been silent too long: drop it.
    Reconnect,
    /// The connection has gone silent: warn (once per silence).
    WarnStall,
    /// Nothing to do.
    Wait,
}

/// The pump's bookkeeping for one connection.
#[derive(Clone, Copy, Debug, PartialEq, Eq, Structural)]
pub struct StreamMonitor {
    pub first_frame: bool,
    pub frame_count: u64,
    pub last_frame: u64,
    pub warned_stall: bool,
    pub last_heartbeat: u64,
    pub last_status: u64,
}

/// The decision for a frame arriving at `now`.
pub open spec fn frame_decision(m: StreamMonitor, now: u64) -> FrameDecision {
    FrameDecision {
        log_first_frame: m.first_frame,
        log_heartbeat: elapsed(m.last_heartbeat, now) >= HEARTBEAT_INTERVAL_NS,
        send_status: elapsed(m.last_status, now) >= STATUS_INTERVAL_NS,
        frame_count: (m.frame_count + 1) as u64,
    }
}

/// The monitor after a frame arriving at `now`.
pub open spec fn after_frame(m: StreamMonitor, now: u64) -> StreamMonitor {
    StreamMonitor {
        first_frame: false,
        frame_count: (m.frame_count + 1) as u64,
        last_frame: now,
        warned_stall: false,
        last_heartbeat: if elapsed(m.last_heartbeat, now) >= HEARTBEAT_INTERVAL_NS {
            now
        } else {
            m.last_heartbeat
        },
        last_status: m.last_status,
    }
}

/// The decision for a watchdog tick at `now`.
pub open spec fn watchdog_decision(m: StreamMonitor, now: u64) -> WatchdogDecision {
    let stalled_for = elapsed(m.last_frame, now);
    if stalled_for > STALL_RECONNECT_NS {
        WatchdogDecision::Reconnect
    } else if stalled_for > STALL_WARN_NS && !m.warned_stall {
        WatchdogDecision::WarnStall
    } else {
        WatchdogDecision::Wait
    }
}

/// The monitor after a watchdog tick at `now`.
pub open spec fn after_tick(m: StreamMonitor, now: u64) -> StreamMonitor {
    StreamMonitor {
        warned_stall: m.warned_stall || watchdog_decision(m, now) == WatchdogDecision::WarnStall,
        ..m
    }
}

fn elapsed_ns(since: u64, now: u64) -> (res: u64)
    ensures
        res == elapsed(since, now),
{
    if now >= since {
        now - since
    } else {
        0
    }
}

impl StreamMonitor {
    /// A connection that has just started at `now`.
    pub fn new(now: u64) -> (res: Self)
        ensures
            res == (StreamMonitor {
                first_frame: true,
                frame_count: 0,
                last_frame: now,
                warned_stall: false,
                last_heartbeat: now,
                last_status: now,
            }),
    {
        StreamMonitor {
            first_frame: true,
            frame_count: 0,
            last_frame: now,
            warned_stall: false,
            last_heartbeat: now,
            last_status: now,
        }
    }

    /// A frame arrived at `now`.
    pub fn on_frame(&mut self, now: u64) -> (res: FrameDecision)
        requires
            old(self).frame_count < u64::MAX,
        ensures
            res == frame_decision(*old(self), now),
            *final(self) == after_frame(*old(self), now),
            res.log_first_frame == old(self).first_frame,
            now >= old(self).last_heartbeat && now - old(self).last_heartbeat >= 10_000_000_000
                ==> res.log_heartbeat && final(self).last_heartbeat == now,
            now < old(self).last_heartbeat || now - old(self).last_heartbeat < 10_000_000_000
                ==> !res.log_heartbeat && final(self).last_heartbeat == old(self).last_heartbeat,
            res.send_status <==> (now >= old(self).last_status && now - old(self).last_status
                >= 500_000_000),
            res.frame_count == old(self).frame_count + 1,
            final(self).frame_count == res.frame_count,
            final(self).last_frame == now,
            !final(self).first_frame,
            !final(self).warned_stall,
            final(self).last_status == old(self).last_status,
    {
        let log_first_frame = self.first_frame;
        self.first_frame = false;
        self.last_frame = now;
        self.warned_stall = false;
        self.frame_count = self.frame_count + 1;
        let log_heartbeat = elapsed_ns(self.last_heartbeat, now) >= HEARTBEAT_INTERVAL_NS;
        if log_heartbeat {
            self.last_heartbeat = now;
        }
        let send_status = elapsed_ns(self.last_status, now) >= STATUS_INTERVAL_NS;
        FrameDecision { log_first_frame, log_heartbeat, send_status, frame_count: self.frame_count }
    }

    /// A status event was sent at `now`.
    pub fn status_sent(&mut self, now: u64)
        ensures
            *final(self) == (StreamMonitor { last_status: now, ..*old(self) }),
    {
        self.last_status = now;
    }

    /// A watchdog tick at `now`; also gives how long the connection has been silent.
    pub fn on_watchdog_tick(&mut self, now: u64) -> (res: (WatchdogDecision, u64))
        ensures
            res.0 == watchdog_decision(*old(self), now),
            res.1 == elapsed(old(self).last_frame, now),
            *final(self) == after_tick(*old(self), now),
            now >= old(self).last_frame ==> res.1 == now - old(self).last_frame,
            now < old(self).last_frame ==> res.1 == 0,
            res.1 > 90_000_000_000 <==> res.0 == WatchdogDecision::Reconnect,
            res.0 == WatchdogDecision::WarnStall <==> (30_000_000_000 < res.1 <= 90_000_000_000
                && !old(self).warned_stall),
            final(self).warned_stall == (old(self).warned_stall || res.0
                == WatchdogDecision::WarnStall),
            final(self).last_frame == old(self).last_frame,
            final(self).last_heartbeat == old(self).last_heartbeat,
            final(self).last_status == old(self).last_status,
            final(self).frame_count == old(self).frame_count,
            final(self).first_frame == old(self).first_frame,
    {
        let stalled_for = elapsed_ns(self.last_frame, now);
        if stalled_for > STALL_RECONNECT_NS {
            return (WatchdogDecision::Reconnect, stalled_for);
        }
        if stalled_for > STALL_WARN_NS && !self.warned_stall {
            self.warned_stall = true;
            return (WatchdogDecision::WarnStall, stalled_for);
        }
        (WatchdogDecision::Wait, stalled_for)
    }
}

/// A frame logs a heartbeat exactly when the last one is at least 10 s old, and the
/// heartbeat time then moves to the frame's time; otherwise it stays.
pub proof fn lemma_heartbeat_due(m: StreamMonitor, now: u64)
    requires
        m.frame_count < u64::MAX,
    ensures
        frame_decision(m, now).log_heartbeat <==> (now >= m.last_heartbeat && now
            - m.last_heartbeat >= 10_000_000_000),
        frame_decision(m, now).log_heartbeat ==> after_frame(m, now).last_heartbeat == now,
        !frame_decision(m, now).log_heartbeat ==> after_frame(m, now).last_heartbeat
            == m.last_heartbeat,
{
}

/// Heartbeats keep coming while frames do: right after any frame, the last heartbeat
/// is less than 10 s older than that frame, however long the gap before it.
pub proof fn lemma_heartbeat_liveness(m: StreamMonitor, now: u64)
    requires
        m.frame_count < u64::MAX,
        m.last_heartbeat <= now,
    ensures
        after_frame(m, now).last_heartbeat <= now,
        now - after_frame(m, now).last_heartbeat < 10_000_000_000,
{
}

/// A frame asks for a status event exactly when the last one was sent at least
/// 500 ms before, and counts itself.
pub proof fn lemma_status_due(m: StreamMonitor, now: u64)
    requires
        m.frame_count < u64::MAX,
    ensures
        frame_decision(m, now).send_status <==> (now >= m.last_status && now - m.last_status
            >= 500_000_000),
        frame_decision(m, now).frame_count == m.frame_count + 1,
        frame_decision(m, now).log_first_frame == m.first_frame,
        !after_frame(m, now).first_frame,
{
}

/// The watchdog drops the connection exactly after more than 90 s without a frame,
/// and warns exactly once the silence is over 30 s (and not yet 90 s) if it has not
/// warned yet.
pub proof fn lemma_watchdog_thresholds(m: StreamMonitor, now: u64)
    requires
        m.last_frame <= now,
    ensures
        watchdog_decision(m, now) == WatchdogDecision::Reconnect <==> now - m.last_frame
            > 90_000_000_000,
        watchdog_decision(m, now) == WatchdogDecision::WarnStall <==> (30_000_000_000 < now
            - m.last_frame <= 90_000_000_000 && !m.warned_stall),
{
}

/// A silence is warned about once: after a warning, no later tick warns again until a
/// frame arrives.
pub proof fn lemma_stall_warned_once(m: StreamMonitor, t1: u64, t2: u64)
    requires
        watchdog_decision(m, t1) == WatchdogDecision::WarnStall,
    ensures
        watchdog_decision(after_tick(m, t1), t2) != WatchdogDecision::WarnStall,
{
}

/// A frame ends any silence: the tick after it warns only once the new silence is long.
pub proof fn lemma_frame_rearms_warning(m: StreamMonitor, t1: u64, t2: u64)
    requires
        m.frame_count < u64::MAX,
    ensures
        watchdog_decision(after_frame(m, t1), t2) == WatchdogDecision::WarnStall <==> (
        STALL_WARN_NS < elapsed(t1, t2) <= STALL_RECONNECT_NS),
{
}

/// Status events are spaced: once one is sent at `t1`, a frame before `t1` plus the
/// interval sends none, whatever frames and ticks came in between.
pub proof fn lemma_status_spacing(m: StreamMonitor, t1: u64, t2: u64)
    requires
        t1 <= t2 < t1 + STATUS_INTERVAL_NS,
    ensures
        !frame_decision(StreamMonitor { last_status: t1, ..m }, t2).send_status,
        after_frame(StreamMonitor { last_status: t1, ..m }, t2).last_status == t1,
        after_tick(StreamMonitor { last_status: t1, ..m }, t2).last_status == t1,
{
}

} // verus!
