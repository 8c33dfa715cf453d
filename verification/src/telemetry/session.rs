//! Reading iRacing session-info strings.

use vstd::prelude::*;

use crate::text::{
    all_white_space, ascii_case_insensitive_eq, ascii_lower_code, decimal_text, is_ascii_digit,
    lemma_decimal_digits, lemma_parse_i32_decimal_text, lemma_trim_decimal_text,
    lemma_trim_ignores_surrounding_white_space, eq_ignore_ascii_case, parse_i32, parse_i32_spec, str_eq, trim,
    trim_white_space,
};

verus! {

/// The lap count a session-info `SessionLaps` string states: `None` for an empty or
/// `unlimited` entry, for text that is not an integer, and for a count that is not positive.
pub open spec fn session_laps_of(s: Seq<char>) -> Option<i32> {
    let t = trim(s);
    if t.len() == 0 || ascii_case_insensitive_eq(t, "unlimited"@) {
        None
    } else {
        match parse_i32_spec(t) {
            Some(n) => if n > 0 {
                Some(n)
            } else {
                None
            },
            None => None,
        }
    }
}

/// The session kind shown for a session-info `SessionType`.
pub open spec fn session_kind_of(session_type: Seq<char>) -> Seq<char> {
    if session_type == "Race"@ {
        "race"@
    } else if session_type == "Practice"@ || session_type == "OfflineTesting"@ {
        "practice"@
    } else if session_type == "Qualify"@ {
        "qualifying"@
    } else {
        "other"@
    }
}

/// A lap count reads the same whatever white space surrounds it.
pub proof fn lemma_laps_ignore_surrounding_white_space(w1: Seq<char>, s: Seq<char>, w2: Seq<char>)
    requires
        all_white_space(w1),
        all_white_space(w2),
    ensures
        session_laps_of(w1 + s + w2) == session_laps_of(s),
{
    lemma_trim_ignores_surrounding_white_space(w1, s, w2);
}

/// The lap count of a positive number's decimal text, with any white space around it,
/// is that number.
pub proof fn lemma_laps_of_decimal_text(n: i32, w1: Seq<char>, w2: Seq<char>)
    requires
        n > 0,
        all_white_space(w1),
        all_white_space(w2),
    ensures
        session_laps_of(w1 + decimal_text(n as int) + w2) == Some(n),
{
    let t = decimal_text(n as int);
    lemma_trim_ignores_surrounding_white_space(w1, t, w2);
    lemma_trim_decimal_text(n as int);
    lemma_parse_i32_decimal_text(n);
    lemma_decimal_digits(n as nat);
    assert(is_ascii_digit(t[0]));
    reveal_strlit("unlimited");
    assert("unlimited"@[0] == 'u');
    assert(!ascii_case_insensitive_eq(t, "unlimited"@)) by {
        if t.len() == "unlimited"@.len() {
            assert(ascii_lower_code(t[0]) != ascii_lower_code("unlimited"@[0]));
        }
    }
}

/// Parses a session-info lap count (`"20"`, `" unlimited "`, ...).
pub fn parse_laps(s: &str) -> (res: Option<i32>)
    ensures
        res == session_laps_of(s@),
        trim(s@).len() == 0 ==> res is None,
        ascii_case_insensitive_eq(trim(s@), "unlimited"@) ==> res is None,
        res matches Some(n) ==> n > 0 && parse_i32_spec(trim(s@)) == Some(n),
        trim(s@).len() > 0 && !ascii_case_insensitive_eq(trim(s@), "unlimited"@) && (
        parse_i32_spec(trim(s@)) is Some) && parse_i32_spec(trim(s@))->0 > 0 ==> res
            == parse_i32_spec(trim(s@)),
{
    let t = trim_white_space(s);
    if t.unicode_len() == 0 || eq_ignore_ascii_case(t, "unlimited") {
        return None;
    }
    match parse_i32(t) {
        Some(n) => if n > 0 {
            Some(n)
        } else {
            None
        },
        None => None,
    }
}

/// The index of the current session among the session-info sessions; a negative
/// `CurrentSessionNum` counts as the first session.
pub fn current_session_index(current_session_num: i32) -> (res: usize)
    ensures
        res == if current_session_num < 0 { 0 } else { current_session_num as int },
{
    if current_session_num < 0 {
        0
    } else {
        current_session_num as usize
    }
}

/// Each kind is given for exactly its session types: "race" only for `Race`,
/// "practice" only for `Practice` and `OfflineTesting`, "qualifying" only for `Qualify`,
/// and "other" for every other string.
pub proof fn lemma_session_kind_exact(t: Seq<char>)
    ensures
        session_kind_of(t) == "race"@ <==> t == "Race"@,
        session_kind_of(t) == "practice"@ <==> (t == "Practice"@ || t == "OfflineTesting"@),
        session_kind_of(t) == "qualifying"@ <==> t == "Qualify"@,
        session_kind_of(t) == "other"@ <==> !(t == "Race"@ || t == "Practice"@ || t
            == "OfflineTesting"@ || t == "Qualify"@),
{
    reveal_strlit("race");
    reveal_strlit("practice");
    reveal_strlit("qualifying");
    reveal_strlit("other");
    assert("race"@.len() == 4);
    assert("practice"@.len() == 8);
    assert("qualifying"@.len() == 10);
    assert("other"@.len() == 5);
    reveal_strlit("Race");
    reveal_strlit("Practice");
    reveal_strlit("OfflineTesting");
    reveal_strlit("Qualify");
    assert("Race"@.len() == 4);
    assert("Practice"@.len() == 8);
    assert("OfflineTesting"@.len() == 14);
    assert("Qualify"@.len() == 7);
}

/// Maps iRacing's session type to the kind reported to the overlay.
pub fn session_kind(session_type: &str) -> (res: &'static str)
    ensures
        res@ == session_kind_of(session_type@),
        res@ == "race"@ <==> session_type@ == "Race"@,
        res@ == "practice"@ <==> (session_type@ == "Practice"@ || session_type@
            == "OfflineTesting"@),
        res@ == "qualifying"@ <==> session_type@ == "Qualify"@,
        res@ == "other"@ <==> !(session_type@ == "Race"@ || session_type@ == "Practice"@
            || session_type@ == "OfflineTesting"@ || session_type@ == "Qualify"@),
{
    proof {
        lemma_session_kind_exact(session_type@);
    }
    if str_eq(session_type, "Race") {
        "race"
    } else if str_eq(session_type, "Practice") || str_eq(session_type, "OfflineTesting") {
        "practice"
    } else if str_eq(session_type, "Qualify") {
        "qualifying"
    } else {
        "other"
    }
}

} // verus!
