//! The integer-valued rules of the refuel calculation.

use vstd::prelude::*;

verus! {

/// Number of recent S/F crossings whose fuel level and lap time are kept.
pub const HISTORY_LEN: usize = 5;

/// Samples (fuel deltas and lap times each) needed before an estimate is trusted.
pub const CONFIDENT_SAMPLES: usize = 3;

/// Largest `SessionLapsRemainEx` taken as a real lap count; iRacing reports `32767`
/// (and sometimes `-1` or `0`) when the session is not lap-limited.
pub const MAX_LAPS_REMAINING: i32 = 1000;

/// The laps left in a lap-limited session, when `laps_remaining` is a sane lap count.
pub open spec fn lap_limited_laps_of(laps_remaining: i32) -> Option<i32> {
    if 1 <= laps_remaining && laps_remaining <= MAX_LAPS_REMAINING {
        Some(laps_remaining)
    } else {
        None
    }
}

/// Reads `SessionLapsRemainEx`: `Some` only for a count in `1..=1000`, else the session
/// is treated as time-limited.
pub fn lap_limited_laps(laps_remaining: i32) -> (res: Option<i32>)
    ensures
        res == lap_limited_laps_of(laps_remaining),
        1 <= laps_remaining <= 1000 ==> res == Some(laps_remaining),
        laps_remaining < 1 || laps_remaining > 1000 ==> res is None,
{
    if 1 <= laps_remaining && laps_remaining <= MAX_LAPS_REMAINING {
        Some(laps_remaining)
    } else {
        None
    }
}

/// Every lap count from 1 to 1000 is taken as the laps left; every other value
/// (sentinels such as `32767`, `0`, `-1`) means the session is not lap-limited.
pub proof fn lemma_lap_limited_laps(laps_remaining: i32)
    ensures
        1 <= laps_remaining <= 1000 ==> lap_limited_laps_of(laps_remaining) == Some(laps_remaining),
        laps_remaining < 1 || laps_remaining > 1000 ==> lap_limited_laps_of(laps_remaining) is None,
{
}

/// How far the estimate can be trusted.
#[derive(Clone, Copy, Debug, PartialEq, Eq, Structural)]
pub enum Confidence {
    High,
    Low,
}

impl Confidence {
    /// The label sent to the overlay: `"high"` or `"low"`.
    pub fn as_str(&self) -> (res: &'static str)
        ensures
            *self == Confidence::High ==> res@ == "high"@,
            *self == Confidence::Low ==> res@ == "low"@,
    {
        match self {
            Confidence::High => "high",
            Confidence::Low => "low",
        }
    }
}

/// `High` once there are at least three fuel deltas and three lap times, else `Low`.
pub fn confidence(n_fuel_deltas: usize, n_lap_times: usize) -> (res: Confidence)
    ensures
        res == (if n_fuel_deltas >= CONFIDENT_SAMPLES && n_lap_times >= CONFIDENT_SAMPLES {
            Confidence::High
        } else {
            Confidence::Low
        }),
        res == Confidence::High <==> n_fuel_deltas >= 3 && n_lap_times >= 3,
{
    if n_fuel_deltas >= CONFIDENT_SAMPLES && n_lap_times >= CONFIDENT_SAMPLES {
        Confidence::High
    } else {
        Confidence::Low
    }
}

} // verus!
