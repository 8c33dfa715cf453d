//! A rolling window over the newest values pushed into it.

use vstd::prelude::*;

verus! {

/// The newest `cap` elements of `s` (all of `s` when it is no longer than `cap`).
pub open spec fn newest<T>(s: Seq<T>, cap: nat) -> Seq<T> {
    if s.len() <= cap {
        s
    } else {
        s.subrange(s.len() - cap, s.len() as int)
    }
}

/// What a buffer of capacity `cap` holding `s` holds after `xs` are pushed onto it, in order.
pub open spec fn after_pushes<T>(s: Seq<T>, xs: Seq<T>, cap: nat) -> Seq<T>
    decreases xs.len(),
{
    if xs.len() == 0 {
        s
    } else {
        after_pushes(newest(s.push(xs[0]), cap), xs.drop_first(), cap)
    }
}

/// Keeping the newest `cap` values and then pushing one more, then keeping the newest
/// `cap` again, is the same as keeping the newest `cap` of the whole history.
pub proof fn lemma_newest_push<T>(history: Seq<T>, value: T, cap: nat)
    requires
        cap > 0,
    ensures
        newest(newest(history, cap).push(value), cap) == newest(history.push(value), cap),
{
    let h = history.push(value);
    assert(newest(newest(history, cap).push(value), cap) =~= newest(h, cap));
}

/// A buffer always holds the newest `cap` values of everything pushed since it was
/// created or cleared: pushing `xs` onto a buffer that holds the newest values of a
/// history leaves it holding the newest values of that history followed by `xs`.
pub proof fn lemma_holds_newest_of_history<T>(history: Seq<T>, xs: Seq<T>, cap: nat)
    requires
        cap > 0,
    ensures
        after_pushes(newest(history, cap), xs, cap) == newest(history + xs, cap),
    decreases xs.len(),
{
    if xs.len() == 0 {
        assert(history + xs =~= history);
    } else {
        lemma_newest_push(history, xs[0], cap);
        lemma_holds_newest_of_history(history.push(xs[0]), xs.drop_first(), cap);
        assert(history.push(xs[0]) + xs.drop_first() =~= history + xs);
    }
}

/// The number of values kept is the length of the history, up to `cap`.
pub proof fn lemma_newest_len<T>(s: Seq<T>, cap: nat)
    ensures
        newest(s, cap).len() == if s.len() <= cap { s.len() } else { cap },
{
}

/// A buffer that keeps at most `cap` values and drops the oldest one when full.
pub struct CappedBuffer<T> {
    buf: Vec<T>,
    cap: usize,
}

impl<T> View for CappedBuffer<T> {
    type V = Seq<T>;

    /// The values held, oldest first.
    closed spec fn view(&self) -> Seq<T> {
        self.buf@
    }
}

impl<T> CappedBuffer<T> {
    #[verifier::type_invariant]
    spec fn holds_at_most_cap(self) -> bool {
        &&& 0 < self.cap
        &&& self.buf@.len() <= self.cap
    }

    /// The largest number of values the buffer keeps.
    pub closed spec fn capacity(self) -> nat {
        self.cap as nat
    }

    /// An empty buffer that keeps at most `cap` values.
    pub fn new(cap: usize) -> (res: Self)
        requires
            cap > 0,
        ensures
            res@ == Seq::<T>::empty(),
            res.capacity() == cap,
    {
        CappedBuffer { buf: Vec::with_capacity(cap), cap }
    }

    /// Appends `value`, dropping the oldest value first when the buffer is full.
    pub fn push(&mut self, value: T)
        ensures
            final(self)@ == newest(old(self)@.push(value), old(self).capacity()),
            final(self).capacity() == old(self).capacity(),
            old(self)@.len() < old(self).capacity() ==> final(self)@ == old(self)@.push(value),
            old(self)@.len() >= old(self).capacity() ==> final(self)@ == old(self)@.drop_first().push(
                value,
            ),
            final(self)@.len() <= final(self).capacity(),
    {
        proof {
            use_type_invariant(&*self);
        }
        let mut buf: Vec<T> = Vec::new();
        std::mem::swap(&mut buf, &mut self.buf);
        if buf.len() >= self.cap {
            buf.remove(0);
        }
        buf.push(value);
        proof {
            assert(buf@ =~= newest(old(self)@.push(value), old(self).capacity()));
            if old(self)@.len() >= old(self).capacity() {
                assert(buf@ =~= old(self)@.drop_first().push(value));
            }
        }
        self.buf = buf;
    }

    /// The values held, oldest first.
    pub fn values(&self) -> (res: &[T])
        ensures
            res@ == self@,
            res@.len() <= self.capacity(),
            0 < self.capacity(),
    {
        proof {
            use_type_invariant(self);
        }
        self.buf.as_slice()
    }

    /// Drops every value; the capacity is kept.
    pub fn clear(&mut self)
        ensures
            final(self)@ == Seq::<T>::empty(),
            final(self).capacity() == old(self).capacity(),
    {
        proof {
            use_type_invariant(&*self);
        }
        let mut buf: Vec<T> = Vec::new();
        std::mem::swap(&mut buf, &mut self.buf);
        buf.clear();
        self.buf = buf;
    }
}

} // verus!
