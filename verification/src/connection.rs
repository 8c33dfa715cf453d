//! Decisions of the reconnect loop: attempt counting, error text and hints.

use vstd::prelude::*;

verus! {

/// Seconds to wait before trying to connect again.
pub const RETRY_DELAY_SECS: u64 = 2;

/// The hint shown when iRacing's shared memory does not exist.
pub const HINT_NOT_RUNNING: &'static str =
    "iRacing is not running - start it and the overlay will connect automatically.";

/// The hint shown when opening iRacing's shared memory is refused.
pub const HINT_ACCESS_DENIED: &'static str =
    "Access denied opening iRacing shared memory - check antivirus settings or run the app with the same elevation as iRacing.";

/// `parts` joined with `sep` between consecutive parts.
pub open spec fn join(parts: Seq<Seq<char>>, sep: Seq<char>) -> Seq<char>
    decreases parts.len(),
{
    if parts.len() == 0 {
        Seq::empty()
    } else if parts.len() == 1 {
        parts[0]
    } else {
        join(parts.drop_last(), sep) + sep + parts.last()
    }
}

/// The texts of an error and of its sources, outermost first, joined by `" -> "`.
pub fn format_error_chain(messages: &[String]) -> (res: String)
    ensures
        res@ == join(messages@.map_values(|m: String| m@), " -> "@),
{
    let ghost parts = messages@.map_values(|m: String| m@);
    let mut out = String::new();
    let mut i: usize = 0;
    while i < messages.len()
        invariant
            i <= messages@.len(),
            parts == messages@.map_values(|m: String| m@),
            out@ == join(parts.take(i as int), " -> "@),
        decreases messages@.len() - i,
    {
        proof {
            assert(parts.take(i + 1).drop_last() =~= parts.take(i as int));
            assert(parts.take(i + 1).last() == messages@[i as int]@);
        }
        if i > 0 {
            out.append(" -> ");
        } else {
            assert(parts.take(1) =~= seq![parts[0]]);
            assert(out@ =~= Seq::<char>::empty());
        }
        out.append(messages[i].as_str());
        i = i + 1;
    }
    assert(parts.take(messages@.len() as int) =~= parts);
    out
}

/// The hint for a Windows error (an `HRESULT`) met while opening iRacing's shared memory,
/// by its low 16 bits: 2 (file not found) and 5 (access denied) have one.
pub fn windows_error_hint(hresult: i32) -> (res: Option<String>)
    ensures
        hresult & 0xFFFF == 2 ==> text_of(res) == Some(HINT_NOT_RUNNING@),
        hresult & 0xFFFF == 5 ==> text_of(res) == Some(HINT_ACCESS_DENIED@),
        hresult & 0xFFFF != 2 && hresult & 0xFFFF != 5 ==> res is None,
{
    let low = hresult & 0xFFFF;
    if low == 2 {
        Some(String::from_str(HINT_NOT_RUNNING))
    } else if low == 5 {
        Some(String::from_str(HINT_ACCESS_DENIED))
    } else {
        None
    }
}

/// Attempt counter and the last hint shown, kept across reconnects.
pub struct ConnectRetry {
    attempt: u32,
    last_hint: Option<String>,
}

/// The text of an optional string.
pub open spec fn text_of(s: Option<String>) -> Option<Seq<char>> {
    match s {
        Some(t) => Some(t@),
        None => None,
    }
}

impl ConnectRetry {
    /// Attempts made so far.
    pub closed spec fn attempts(self) -> u32 {
        self.attempt
    }

    /// The last hint shown, if any.
    pub closed spec fn last_hint(self) -> Option<Seq<char>> {
        text_of(self.last_hint)
    }

    /// No attempt made, no hint shown.
    pub fn new() -> (res: Self)
        ensures
            res.attempts() == 0,
            res.last_hint() == None::<Seq<char>>,
    {
        ConnectRetry { attempt: 0, last_hint: None }
    }

    /// Attempts made so far.
    pub fn attempts_made(&self) -> (res: u32)
        ensures
            res == self.attempts(),
    {
        self.attempt
    }

    /// Starts an attempt; returns its number, counting from 1.
    pub fn begin_attempt(&mut self) -> (res: u32)
        requires
            old(self).attempts() < u32::MAX,
        ensures
            res == old(self).attempts() + 1,
            final(self).attempts() == res,
            final(self).last_hint() == old(self).last_hint(),
    {
        self.attempt = self.attempt + 1;
        self.attempt
    }

    /// Given the hint for a failed attempt, returns the hint to show: the same hint is
    /// not shown twice in a row.
    pub fn hint_to_show(&mut self, hint: Option<String>) -> (res: Option<String>)
        ensures
            final(self).attempts() == old(self).attempts(),
            match hint {
                None => res is None && final(self).last_hint() == old(self).last_hint(),
                Some(h) => if old(self).last_hint() == Some(h@) {
                    res is None && final(self).last_hint() == old(self).last_hint()
                } else {
                    text_of(res) == Some(h@) && final(self).last_hint() == Some(h@)
                },
            },
    {
        match hint {
            None => None,
            Some(h) => {
                let repeated = match &self.last_hint {
                    Some(last) => *last == h,
                    None => false,
                };
                if repeated {
                    None
                } else {
                    self.last_hint = Some(h.clone());
                    Some(h)
                }
            },
        }
    }
}

} // verus!
