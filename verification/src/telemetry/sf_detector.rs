//! Start/finish line crossing detection from the completed-lap counter.

use vstd::prelude::*;

verus! {

/// Whether a detector that last saw the valid lap `last` (`None`: none seen since it was
/// created or reset) reports a crossing when it is handed `lap`.
pub open spec fn crossing_fires(last: Option<i32>, lap: i32) -> bool {
    &&& lap > 0
    &&& last matches Some(l) && lap > l
}

/// The last valid lap a detector holds after it is handed `lap`.
pub open spec fn lap_after(last: Option<i32>, lap: i32) -> Option<i32> {
    if lap <= 0 {
        last
    } else {
        match last {
            None => Some(lap),
            Some(l) => if lap > l { Some(lap) } else { last },
        }
    }
}

/// The state of a fresh detector after it is handed `laps`, in order.
pub open spec fn lap_after_all(laps: Seq<i32>) -> Option<i32>
    decreases laps.len(),
{
    if laps.len() == 0 {
        None
    } else {
        lap_after(lap_after_all(laps.drop_last()), laps.last())
    }
}

/// The largest positive lap in `laps`, if there is one.
pub open spec fn max_positive_lap(laps: Seq<i32>) -> Option<i32>
    decreases laps.len(),
{
    if laps.len() == 0 {
        None
    } else {
        let rest = max_positive_lap(laps.drop_last());
        let x = laps.last();
        if x <= 0 {
            rest
        } else {
            match rest {
                None => Some(x),
                Some(m) => if x > m { Some(x) } else { Some(m) },
            }
        }
    }
}

/// Fires once per new completed lap; the first valid lap only arms it.
pub struct SFDetector {
    last_lap: i32,
}

impl View for SFDetector {
    type V = Option<i32>;

    /// The last valid (positive) lap seen since creation or the last reset.
    closed spec fn view(&self) -> Option<i32> {
        if self.last_lap == -1 {
            None
        } else {
            Some(self.last_lap)
        }
    }
}

impl SFDetector {
    #[verifier::type_invariant]
    spec fn sentinel_or_positive(self) -> bool {
        self.last_lap == -1 || self.last_lap > 0
    }

    /// A detector that has seen no valid lap.
    pub fn new() -> (res: Self)
        ensures
            res@ == None::<i32>,
    {
        SFDetector { last_lap: -1 }
    }

    /// Returns `true` if this lap is a valid S/F crossing (lap > last_lap).
    /// First valid lap does not fire. Zero/negative laps are ignored.
    pub fn on_lap(&mut self, lap: i32) -> (fired: bool)
        ensures
            fired == crossing_fires(old(self)@, lap),
            final(self)@ == lap_after(old(self)@, lap),
            fired <==> (lap > 0 && old(self)@ is Some && lap > old(self)@->0),
            lap <= 0 ==> final(self)@ == old(self)@,
            lap > 0 && old(self)@ is None ==> final(self)@ == Some(lap),
            lap > 0 && old(self)@ is Some && lap > old(self)@->0 ==> final(self)@ == Some(lap),
            lap > 0 && old(self)@ is Some && lap <= old(self)@->0 ==> final(self)@ == old(self)@,
        no_unwind
    {
        proof {
            use_type_invariant(&*self);
        }
        if lap <= 0 {
            return false;
        }
        if self.last_lap == -1 {
            self.last_lap = lap;
            return false;
        }
        if lap > self.last_lap {
            self.last_lap = lap;
            return true;
        }
        false
    }

    /// Forgets every lap seen, as if newly created.
    pub fn reset(&mut self)
        ensures
            final(self)@ == None::<i32>,
        no_unwind
    {
        self.last_lap = -1;
    }
}

/// The lap that fired is never reported again: handing the detector the same lap
/// right after never fires.
pub proof fn lemma_no_double_fire(last: Option<i32>, lap: i32)
    ensures
        !crossing_fires(lap_after(last, lap), lap),
{
}

/// The last valid lap never goes down while the detector is not reset.
pub proof fn lemma_last_lap_monotone(last: Option<i32>, lap: i32)
    ensures
        last matches Some(l) ==> (lap_after(last, lap) matches Some(m) && m >= l),
        lap > 0 ==> lap_after(last, lap) is Some,
{
}

/// Over any run of laps, a fresh detector holds the largest positive lap it has seen.
pub proof fn lemma_holds_max_positive_lap(laps: Seq<i32>)
    ensures
        lap_after_all(laps) == max_positive_lap(laps),
    decreases laps.len(),
{
    if laps.len() > 0 {
        lemma_holds_max_positive_lap(laps.drop_last());
    }
}

/// Fed a run of laps, a fresh detector fires on the next lap exactly when that lap is
/// positive and beats every positive lap seen so far, of which there is at least one:
/// the first valid lap never fires and a lap number never fires twice.
pub proof fn lemma_fires_on_new_maximum(laps: Seq<i32>, lap: i32)
    ensures
        crossing_fires(lap_after_all(laps), lap) <==> (lap > 0 && exists|i: int|
            0 <= i < laps.len() && laps[i] > 0) && (forall|i: int|
            0 <= i < laps.len() ==> laps[i] < lap),
    decreases laps.len(),
{
    lemma_holds_max_positive_lap(laps);
    lemma_max_positive_lap_bounds(laps);
}

/// `max_positive_lap` is the maximum of the positive laps, and exists exactly when one does.
pub proof fn lemma_max_positive_lap_bounds(laps: Seq<i32>)
    ensures
        max_positive_lap(laps) is Some <==> exists|i: int| 0 <= i < laps.len() && laps[i] > 0,
        max_positive_lap(laps) matches Some(m) ==> (m > 0 && (exists|i: int|
            0 <= i < laps.len() && laps[i] == m) && forall|i: int|
            0 <= i < laps.len() ==> laps[i] <= m),
    decreases laps.len(),
{
    if laps.len() > 0 {
        let rest = laps.drop_last();
        lemma_max_positive_lap_bounds(rest);
        assert forall|i: int| 0 <= i < rest.len() implies rest[i] == laps[i] by {}
        if max_positive_lap(laps) is Some {
            if laps.last() > 0 {
                assert(laps[laps.len() - 1] > 0);
            } else {
                let i = choose|i: int| 0 <= i < rest.len() && rest[i] > 0;
                assert(laps[i] > 0);
            }
        }
        if exists|i: int| 0 <= i < laps.len() && laps[i] > 0 {
            let i = choose|i: int| 0 <= i < laps.len() && laps[i] > 0;
            if i < rest.len() {
                assert(rest[i] > 0);
            }
        }
        if let Some(m) = max_positive_lap(laps) {
            if laps.last() > 0 && (max_positive_lap(rest) is None || laps.last() > max_positive_lap(rest)->0) {
                assert(laps[laps.len() - 1] == m);
            } else {
                let j = choose|j: int| 0 <= j < rest.len() && rest[j] == m;
                assert(laps[j] == m);
            }
            assert forall|i: int| 0 <= i < laps.len() implies laps[i] <= m by {
                if i < rest.len() {
                    assert(rest[i] == laps[i]);
                }
            }
        }
    }
}

} // verus!
