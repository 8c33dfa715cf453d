//! Crossing detection together with the fuel and lap-time histories it feeds.

use vstd::prelude::*;

use super::fuel::HISTORY_LEN;
use super::rolling::{newest, CappedBuffer};
use super::sf_detector::{crossing_fires, lap_after, SFDetector};

verus! {

/// The state kept between S/F crossings: the detector and the newest fuel levels and
/// lap times recorded at crossings, always the same number of each.
pub struct CrossingHistory<T> {
    detector: SFDetector,
    fuel_levels: CappedBuffer<T>,
    lap_times: CappedBuffer<T>,
}

impl<T> CrossingHistory<T> {
    #[verifier::type_invariant]
    spec fn histories_in_step(self) -> bool {
        &&& self.fuel_levels.capacity() == HISTORY_LEN
        &&& self.lap_times.capacity() == HISTORY_LEN
        &&& self.fuel_levels@.len() == self.lap_times@.len()
    }

    /// The last valid lap the detector has seen since creation or the last reset.
    pub closed spec fn last_lap(self) -> Option<i32> {
        self.detector@
    }

    /// Fuel levels recorded at the newest crossings, oldest first.
    pub closed spec fn fuel_levels(self) -> Seq<T> {
        self.fuel_levels@
    }

    /// Lap times recorded at the newest crossings, oldest first.
    pub closed spec fn lap_times(self) -> Seq<T> {
        self.lap_times@
    }

    /// Nothing seen, nothing recorded.
    pub fn new() -> (res: Self)
        ensures
            res.last_lap() == None::<i32>,
            res.fuel_levels() == Seq::<T>::empty(),
            res.lap_times() == Seq::<T>::empty(),
    {
        CrossingHistory {
            detector: SFDetector::new(),
            fuel_levels: CappedBuffer::new(HISTORY_LEN),
            lap_times: CappedBuffer::new(HISTORY_LEN),
        }
    }

    /// Hands the completed-lap counter of a frame to the detector; `true` on a crossing.
    pub fn on_lap(&mut self, lap: i32) -> (fired: bool)
        ensures
            fired == crossing_fires(old(self).last_lap(), lap),
            final(self).last_lap() == lap_after(old(self).last_lap(), lap),
            final(self).fuel_levels() == old(self).fuel_levels(),
            final(self).lap_times() == old(self).lap_times(),
    {
        proof {
            use_type_invariant(&*self);
        }
        self.detector.on_lap(lap)
    }

    /// Records the fuel level and last lap time of a crossing, dropping the oldest pair
    /// once five are held.
    pub fn record(&mut self, fuel_level: T, lap_time: T)
        ensures
            final(self).fuel_levels() == newest(old(self).fuel_levels().push(fuel_level), HISTORY_LEN as nat),
            final(self).lap_times() == newest(old(self).lap_times().push(lap_time), HISTORY_LEN as nat),
            final(self).last_lap() == old(self).last_lap(),
            old(self).fuel_levels().len() < 5 ==> final(self).fuel_levels() == old(self).fuel_levels().push(fuel_level)
                && final(self).lap_times() == old(self).lap_times().push(lap_time),
            old(self).fuel_levels().len() >= 5 ==> final(self).fuel_levels() == old(self).fuel_levels().drop_first().push(fuel_level)
                && final(self).lap_times() == old(self).lap_times().drop_first().push(lap_time),
    {
        proof {
            use_type_invariant(&*self);
        }
        let mut taken = CrossingHistory::new();
        std::mem::swap(&mut taken, self);
        let CrossingHistory { detector, mut fuel_levels, mut lap_times } = taken;
        fuel_levels.push(fuel_level);
        lap_times.push(lap_time);
        *self = CrossingHistory { detector, fuel_levels, lap_times };
    }

    /// Forgets every crossing and every recorded value (a new session started).
    pub fn reset_buffers(&mut self)
        ensures
            final(self).last_lap() == None::<i32>,
            final(self).fuel_levels() == Seq::<T>::empty(),
            final(self).lap_times() == Seq::<T>::empty(),
    {
        *self = CrossingHistory::new();
    }

    /// The recorded fuel levels, oldest first; never more than five, and as many as
    /// there are lap times.
    pub fn fuel_history(&self) -> (res: &[T])
        ensures
            res@ == self.fuel_levels(),
            res@.len() <= HISTORY_LEN,
            res@.len() == self.lap_times().len(),
    {
        proof {
            use_type_invariant(self);
        }
        self.fuel_levels.values()
    }

    /// The recorded lap times, oldest first; never more than five, and as many as
    /// there are fuel levels.
    pub fn lap_time_history(&self) -> (res: &[T])
        ensures
            res@ == self.lap_times(),
            res@.len() <= HISTORY_LEN,
            res@.len() == self.fuel_levels().len(),
    {
        proof {
            use_type_invariant(self);
        }
        self.lap_times.values()
    }
}

/// After a reset (a new session), the first valid lap only arms the detector: no
/// crossing is reported until the lap counter moves past it.
pub proof fn lemma_no_crossing_right_after_reset(lap: i32, next: i32)
    ensures
        !crossing_fires(None, lap),
        crossing_fires(lap_after(None, lap), next) <==> (lap > 0 && next > lap),
{
}

} // verus!
