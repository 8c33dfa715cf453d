//! Character-level string helpers with exact specifications.

use vstd::prelude::*;

verus! {

/// Unicode's `White_Space` property, the set `char::is_whitespace` tests.
pub open spec fn is_unicode_white_space(c: char) -> bool {
    ||| ('\u{9}' <= c && c <= '\u{d}')
    ||| c == ' '
    ||| c == '\u{85}'
    ||| c == '\u{a0}'
    ||| c == '\u{1680}'
    ||| ('\u{2000}' <= c && c <= '\u{200a}')
    ||| c == '\u{2028}'
    ||| c == '\u{2029}'
    ||| c == '\u{202f}'
    ||| c == '\u{205f}'
    ||| c == '\u{3000}'
}

/// `s` without its leading white space.
pub open spec fn trim_start(s: Seq<char>) -> Seq<char>
    decreases s.len(),
{
    if s.len() > 0 && is_unicode_white_space(s[0]) {
        trim_start(s.drop_first())
    } else {
        s
    }
}

/// `s` without its trailing white space.
pub open spec fn trim_end(s: Seq<char>) -> Seq<char>
    decreases s.len(),
{
    if s.len() > 0 && is_unicode_white_space(s.last()) {
        trim_end(s.drop_last())
    } else {
        s
    }
}

/// `s` without leading and trailing white space.
pub open spec fn trim(s: Seq<char>) -> Seq<char> {
    trim_end(trim_start(s))
}

/// The code of `c` with ASCII upper-case letters mapped to lower case.
pub open spec fn ascii_lower_code(c: char) -> u32 {
    if 'A' <= c && c <= 'Z' {
        (c as u32 + 32) as u32
    } else {
        c as u32
    }
}

/// `a` and `b` are equal up to the case of ASCII letters.
pub open spec fn ascii_case_insensitive_eq(a: Seq<char>, b: Seq<char>) -> bool {
    &&& a.len() == b.len()
    &&& forall|i: int| 0 <= i < a.len() ==> ascii_lower_code(#[trigger] a[i]) == ascii_lower_code(
        b[i],
    )
}

pub open spec fn is_ascii_digit(c: char) -> bool {
    '0' <= c && c <= '9'
}

/// The value of a run of decimal digits, most significant first.
pub open spec fn digits_value(s: Seq<char>) -> int
    decreases s.len(),
{
    if s.len() == 0 {
        0
    } else {
        digits_value(s.drop_last()) * 10 + (s.last() as int - '0' as int)
    }
}

/// `s` starts with a `+` or `-` sign.
pub open spec fn has_sign(s: Seq<char>) -> bool {
    s.len() > 0 && (s[0] == '-' || s[0] == '+')
}

/// `s` without its leading sign, if it has one.
pub open spec fn unsigned_part(s: Seq<char>) -> Seq<char> {
    if has_sign(s) {
        s.drop_first()
    } else {
        s
    }
}

/// Every character of `s` is an ASCII digit.
pub open spec fn all_ascii_digits(s: Seq<char>) -> bool {
    forall|i: int| 0 <= i < s.len() ==> is_ascii_digit(#[trigger] s[i])
}

/// What `str::parse::<i32>` gives: an optional `+` or `-` sign followed by one or more
/// ASCII digits whose value fits in an `i32`; `None` for anything else.
pub open spec fn parse_i32_spec(s: Seq<char>) -> Option<i32> {
    let body = unsigned_part(s);
    if body.len() == 0 || !all_ascii_digits(body) {
        None
    } else {
        let v = if s[0] == '-' {
            -digits_value(body)
        } else {
            digits_value(body)
        };
        if i32::MIN <= v && v <= i32::MAX {
            Some(v as i32)
        } else {
            None
        }
    }
}

/// Every character of `w` is white space.
pub open spec fn all_white_space(w: Seq<char>) -> bool {
    forall|i: int| 0 <= i < w.len() ==> is_unicode_white_space(#[trigger] w[i])
}

/// Leading white space does not survive `trim_start`.
pub proof fn lemma_trim_start_skips_white_prefix(w: Seq<char>, x: Seq<char>)
    requires
        all_white_space(w),
    ensures
        trim_start(w + x) == trim_start(x),
    decreases w.len(),
{
    if w.len() == 0 {
        assert(w + x =~= x);
    } else {
        assert((w + x)[0] == w[0]);
        assert((w + x).drop_first() =~= w.drop_first() + x);
        lemma_trim_start_skips_white_prefix(w.drop_first(), x);
    }
}

/// Trailing white space does not survive `trim_end`.
pub proof fn lemma_trim_end_skips_white_suffix(x: Seq<char>, w: Seq<char>)
    requires
        all_white_space(w),
    ensures
        trim_end(x + w) == trim_end(x),
    decreases w.len(),
{
    if w.len() == 0 {
        assert(x + w =~= x);
    } else {
        assert((x + w).last() == w.last());
        assert((x + w).drop_last() =~= x + w.drop_last());
        lemma_trim_end_skips_white_suffix(x, w.drop_last());
    }
}

/// Surrounding white space does not change what `trim` leaves.
pub proof fn lemma_trim_ignores_surrounding_white_space(w1: Seq<char>, s: Seq<char>, w2: Seq<char>)
    requires
        all_white_space(w1),
        all_white_space(w2),
    ensures
        trim(w1 + s + w2) == trim(s),
{
    assert(w1 + s + w2 =~= w1 + (s + w2));
    lemma_trim_start_skips_white_prefix(w1, s + w2);
    lemma_trim_start_of_padded(s, w2);
}

/// `trim` of `s` followed by white space is `trim` of `s`.
proof fn lemma_trim_start_of_padded(s: Seq<char>, w: Seq<char>)
    requires
        all_white_space(w),
    ensures
        trim_end(trim_start(s + w)) == trim_end(trim_start(s)),
    decreases s.len(),
{
    if s.len() == 0 {
        assert(s + w =~= w);
        assert(Seq::<char>::empty() + w =~= w);
        lemma_trim_start_skips_white_prefix(w, Seq::<char>::empty());
        assert(w + Seq::<char>::empty() =~= w);
    } else if is_unicode_white_space(s[0]) {
        assert((s + w)[0] == s[0]);
        assert((s + w).drop_first() =~= s.drop_first() + w);
        lemma_trim_start_of_padded(s.drop_first(), w);
    } else {
        assert((s + w)[0] == s[0]);
        lemma_trim_end_skips_white_suffix(s, w);
    }
}

/// The ASCII digit for `d` in `0..10`.
pub open spec fn decimal_digit(d: int) -> char {
    (d + '0' as int) as char
}

/// The decimal digits of `n`, most significant first, without leading zeros.
pub open spec fn decimal_digits(n: nat) -> Seq<char>
    decreases n,
{
    if n < 10 {
        seq![decimal_digit(n as int)]
    } else {
        decimal_digits(n / 10).push(decimal_digit((n % 10) as int))
    }
}

/// The decimal text of `n` as `to_string` writes it: a `-` for negative values, then
/// the digits.
pub open spec fn decimal_text(n: int) -> Seq<char> {
    if n < 0 {
        seq!['-'] + decimal_digits((-n) as nat)
    } else {
        decimal_digits(n as nat)
    }
}

/// The digits of `n` are ASCII digits worth `n`.
pub proof fn lemma_decimal_digits(n: nat)
    ensures
        decimal_digits(n).len() > 0,
        all_ascii_digits(decimal_digits(n)),
        digits_value(decimal_digits(n)) == n,
    decreases n,
{
    if n < 10 {
        let s = seq![decimal_digit(n as int)];
        assert(s.drop_last() =~= Seq::<char>::empty());
        assert(decimal_digit(n as int) as int == n + 48);
        assert(decimal_digits(n) == s);
        assert(digits_value(s) == digits_value(s.drop_last()) * 10 + (s.last() as int - '0' as int));
        assert(digits_value(Seq::<char>::empty()) == 0);
    } else {
        lemma_decimal_digits(n / 10);
        let p = decimal_digits(n / 10);
        let s = p.push(decimal_digit((n % 10) as int));
        assert(s.drop_last() =~= p);
        assert(decimal_digit((n % 10) as int) as int == n % 10 + 48);
        assert((n / 10) * 10 + n % 10 == n);
        assert(decimal_digits(n) == s);
        assert(digits_value(s) == digits_value(p) * 10 + (s.last() as int - '0' as int));
        assert forall|i: int| 0 <= i < s.len() implies is_ascii_digit(#[trigger] s[i]) by {
            if i < p.len() {
                assert(s[i] == p[i]);
            }
        }
    }
}

/// Parsing the decimal text of any `i32` gives it back.
pub proof fn lemma_parse_i32_decimal_text(n: i32)
    ensures
        parse_i32_spec(decimal_text(n as int)) == Some(n),
{
    if n < 0 {
        let d = decimal_digits((-n) as nat);
        lemma_decimal_digits((-n) as nat);
        let t = seq!['-'] + d;
        assert(t[0] == '-');
        assert(t.drop_first() =~= d);
    } else {
        let d = decimal_digits(n as nat);
        lemma_decimal_digits(n as nat);
        assert(is_ascii_digit(d[0]));
    }
}

/// The decimal text of a number has no white space to trim.
pub proof fn lemma_trim_decimal_text(n: int)
    ensures
        trim(decimal_text(n)) == decimal_text(n),
{
    let t = decimal_text(n);
    if n < 0 {
        lemma_decimal_digits((-n) as nat);
        let d = decimal_digits((-n) as nat);
        assert(t.last() == d.last());
        assert(is_ascii_digit(d[d.len() - 1]));
    } else {
        lemma_decimal_digits(n as nat);
        assert(is_ascii_digit(t[0]));
        assert(is_ascii_digit(t[t.len() - 1]));
    }
}

/// Whether `c` is white space in Unicode's sense (as `char::is_whitespace`).
pub fn is_white_space(c: char) -> (res: bool)
    ensures
        res == is_unicode_white_space(c),
{
    ('\u{9}' <= c && c <= '\u{d}') || c == ' ' || c == '\u{85}' || c == '\u{a0}' || c
        == '\u{1680}' || ('\u{2000}' <= c && c <= '\u{200a}') || c == '\u{2028}' || c
        == '\u{2029}' || c == '\u{202f}' || c == '\u{205f}' || c == '\u{3000}'
}

/// `s` without leading and trailing white space (as `str::trim`).
pub fn trim_white_space(s: &str) -> (res: &str)
    ensures
        res@ == trim(s@),
{
    let n = s.unicode_len();
    let mut lo: usize = 0;
    assert(s@.subrange(0, n as int) =~= s@);
    while lo < n && is_white_space(s.get_char(lo))
        invariant
            n == s@.len(),
            lo <= n,
            trim_start(s@) == trim_start(s@.subrange(lo as int, n as int)),
        decreases n - lo,
    {
        proof {
            let rest = s@.subrange(lo as int, n as int);
            assert(rest.drop_first() =~= s@.subrange(lo + 1, n as int));
        }
        lo = lo + 1;
    }
    assert(trim_start(s@) == s@.subrange(lo as int, n as int));
    let mut hi: usize = n;
    while hi > lo && is_white_space(s.get_char(hi - 1))
        invariant
            n == s@.len(),
            lo <= hi <= n,
            trim(s@) == trim_end(s@.subrange(lo as int, hi as int)),
        decreases hi - lo,
    {
        proof {
            let rest = s@.subrange(lo as int, hi as int);
            assert(rest.drop_last() =~= s@.subrange(lo as int, hi - 1));
        }
        hi = hi - 1;
    }
    s.substring_char(lo, hi)
}

/// `a` and `b` are equal up to the case of ASCII letters (as `str::eq_ignore_ascii_case`).
pub fn eq_ignore_ascii_case(a: &str, b: &str) -> (res: bool)
    ensures
        res == ascii_case_insensitive_eq(a@, b@),
{
    let n = a.unicode_len();
    if n != b.unicode_len() {
        return false;
    }
    let mut i: usize = 0;
    while i < n
        invariant
            n == a@.len(),
            n == b@.len(),
            i <= n,
            forall|j: int| 0 <= j < i ==> ascii_lower_code(#[trigger] a@[j]) == ascii_lower_code(
                b@[j],
            ),
        decreases n - i,
    {
        let ca = a.get_char(i);
        let cb = b.get_char(i);
        let la: u32 = if 'A' <= ca && ca <= 'Z' {
            ca as u32 + 32
        } else {
            ca as u32
        };
        let lb: u32 = if 'A' <= cb && cb <= 'Z' {
            cb as u32 + 32
        } else {
            cb as u32
        };
        if la != lb {
            return false;
        }
        i = i + 1;
    }
    true
}

/// `a` and `b` hold the same characters.
pub fn str_eq(a: &str, b: &str) -> (res: bool)
    ensures
        res == (a@ == b@),
{
    let n = a.unicode_len();
    if n != b.unicode_len() {
        return false;
    }
    let mut i: usize = 0;
    while i < n
        invariant
            n == a@.len(),
            n == b@.len(),
            i <= n,
            forall|j: int| 0 <= j < i ==> a@[j] == b@[j],
        decreases n - i,
    {
        if a.get_char(i) != b.get_char(i) {
            return false;
        }
        i = i + 1;
    }
    assert(a@ =~= b@);
    true
}

/// Parses an `i32` as `str::parse::<i32>` does: an optional sign, then decimal digits.
pub fn parse_i32(s: &str) -> (res: Option<i32>)
    ensures
        res == parse_i32_spec(s@),
{
    let n = s.unicode_len();
    if n == 0 {
        return None;
    }
    let first = s.get_char(0);
    let negative = first == '-';
    let start: usize = if first == '-' || first == '+' {
        1
    } else {
        0
    };
    if start == n {
        proof {
            assert(s@[0] == first);
            assert(s@.drop_first().len() == 0);
        }
        return None;
    }
    let ghost body = s@.subrange(start as int, n as int);
    assert(s@[0] == first);
    assert(body =~= (if start == 1 { s@.drop_first() } else { s@ }));
    // Magnitude bound: 2^31 for a negative value, 2^31 - 1 otherwise.
    let bound: i64 = if negative {
        2147483648
    } else {
        2147483647
    };
    let mut acc: i64 = 0;
    let mut too_big = false;
    let mut i: usize = start;
    while i < n
        invariant
            n == s@.len(),
            start <= i <= n,
            start < n,
            body == s@.subrange(start as int, n as int),
            body == unsigned_part(s@),
            negative == (s@[0] == '-'),
            0 <= bound <= 2147483648,
            forall|j: int| start <= j < i ==> is_ascii_digit(#[trigger] s@[j]),
            !too_big ==> 0 <= acc <= bound && acc == digits_value(
                s@.subrange(start as int, i as int),
            ),
            too_big ==> digits_value(s@.subrange(start as int, i as int)) > bound,
        decreases n - i,
    {
        let c = s.get_char(i);
        if !('0' <= c && c <= '9') {
            proof {
                assert(body[i - start] == c);
                assert(!is_ascii_digit(body[i - start]));
                assert(!all_ascii_digits(body));
            }
            return None;
        }
        let ghost prefix = s@.subrange(start as int, i + 1);
        proof {
            assert(prefix.drop_last() =~= s@.subrange(start as int, i as int));
            assert(prefix.last() == c);
        }
        if !too_big {
            let d: i64 = (c as u32 - '0' as u32) as i64;
            let next = acc * 10 + d;
            if next > bound {
                too_big = true;
            } else {
                acc = next;
            }
        }
        i = i + 1;
    }
    proof {
        assert forall|j: int| 0 <= j < body.len() implies is_ascii_digit(#[trigger] body[j]) by {
            assert(body[j] == s@[start + j]);
        }
        assert(all_ascii_digits(body));
    }
    if too_big {
        None
    } else if negative {
        Some((-acc) as i32)
    } else {
        Some(acc as i32)
    }
}

} // verus!
