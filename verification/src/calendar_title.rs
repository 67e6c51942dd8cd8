//! Month titles in a locale's format.

use vstd::prelude::*;
use vstd::string::StrSliceExecFns;

use crate::text::{decimal, push_char, push_decimal, push_text, text_eq};

verus! {

/// Whether an empty placeholder `{}` starts at position `i` of `s`.
pub open spec fn placeholder_at(s: Seq<char>, i: int) -> bool {
    0 <= i && i + 1 < s.len() && s[i] == '{' && s[i + 1] == '}'
}

/// Position of the first placeholder of `s` at or after `i`, or -1.
pub open spec fn first_placeholder_from(s: Seq<char>, i: int) -> int
    decreases s.len() - i,
{
    if i < 0 || i + 1 >= s.len() {
        -1
    } else if placeholder_at(s, i) {
        i
    } else {
        first_placeholder_from(s, i + 1)
    }
}

/// `s` with its first placeholder replaced by `rep`; unchanged without one.
pub open spec fn replace_first(s: Seq<char>, rep: Seq<char>) -> Seq<char> {
    let k = first_placeholder_from(s, 0);
    if k < 0 {
        s
    } else {
        s.take(k) + rep + s.skip(k + 2)
    }
}

/// The pattern with its first two placeholders filled, in order, by `first`
/// and `second`; none when a replacement leaves the text unchanged.
pub open spec fn spec_replace_two(pattern: Seq<char>, first: Seq<char>, second: Seq<char>) -> Option<Seq<char>> {
    let w1 = replace_first(pattern, first);
    if w1 == pattern {
        None
    } else {
        let w2 = replace_first(w1, second);
        if w2 == w1 { None } else { Some(w2) }
    }
}

proof fn lemma_first_placeholder_skip(s: Seq<char>, i: int, j: int)
    requires
        0 <= i <= j,
        forall|k: int| i <= k < j ==> !placeholder_at(s, k),
    ensures
        j + 1 < s.len() ==> first_placeholder_from(s, i) == first_placeholder_from(s, j),
        j + 1 >= s.len() ==> first_placeholder_from(s, i) == -1,
    decreases j - i,
{
    if i < j {
        lemma_first_placeholder_skip(s, i + 1, j);
        if i + 1 < s.len() {
            assert(!placeholder_at(s, i));
        }
    }
}

/// Position of the first placeholder of `s`.
fn find_placeholder(s: &str) -> (r: Option<usize>)
    ensures
        match r {
            Some(k) => first_placeholder_from(s@, 0) == k && placeholder_at(s@, k as int),
            None => first_placeholder_from(s@, 0) == -1,
        },
{
    let n = s.unicode_len();
    if n < 2 {
        return None;
    }
    let mut i: usize = 0;
    while i + 1 < n
        invariant
            n == s@.len(),
            n >= 2,
            i + 1 <= n,
            forall|k: int| 0 <= k < i ==> !placeholder_at(s@, k),
        decreases n - i,
    {
        if s.get_char(i) == '{' && s.get_char(i + 1) == '}' {
            proof {
                lemma_first_placeholder_skip(s@, 0, i as int);
            }
            return Some(i);
        }
        i = i + 1;
    }
    proof {
        lemma_first_placeholder_skip(s@, 0, i as int);
    }
    None
}

/// Appends the characters of `s` from `from` up to `to`.
fn push_range(out: &mut String, s: &str, from: usize, to: usize)
    requires from <= to <= s@.len(),
    ensures final(out)@ == old(out)@ + s@.subrange(from as int, to as int),
{
    let ghost start = out@;
    for i in from..to
        invariant
            from <= to <= s@.len(),
            out@ == start + s@.subrange(from as int, i as int),
    {
        push_char(out, s.get_char(i));
        assert(s@.subrange(from as int, i + 1) == s@.subrange(from as int, i as int).push(s@[i as int]));
    }
}

/// `s` with its first placeholder replaced by `rep`.
pub fn replace_first_placeholder(s: &str, rep: &str) -> (r: String)
    ensures r@ == replace_first(s@, rep@),
{
    match find_placeholder(s) {
        None => s.to_owned(),
        Some(k) => {
            let n = s.unicode_len();
            let mut out = String::new();
            push_range(&mut out, s, 0, k);
            push_text(&mut out, rep);
            push_range(&mut out, s, k + 2, n);
            assert(s@.subrange(0, k as int) == s@.take(k as int));
            assert(s@.subrange(k + 2, n as int) == s@.skip(k + 2));
            assert(out@ =~= replace_first(s@, rep@));
            out
        },
    }
}

/// Fills the first two placeholders of `pattern` with `first` and `second`,
/// in order; none when either replacement changes nothing.
pub fn replace_two_placeholders(pattern: &str, first: &str, second: &str) -> (r: Option<String>)
    ensures
        match r {
            Some(t) => spec_replace_two(pattern@, first@, second@) == Some(t@),
            None => spec_replace_two(pattern@, first@, second@) is None,
        },
{
    let with_first = replace_first_placeholder(pattern, first);
    if text_eq(with_first.as_str(), pattern) {
        return None;
    }
    let with_second = replace_first_placeholder(with_first.as_str(), second);
    if text_eq(with_second.as_str(), with_first.as_str()) {
        None
    } else {
        Some(with_second)
    }
}

/// Decimal notation of a signed number.
pub open spec fn signed_decimal(n: int) -> Seq<char> {
    if n < 0 { seq!['-'] + decimal((-n) as nat) } else { decimal(n as nat) }
}

/// Appends the decimal notation of a signed number.
pub fn push_signed_decimal(s: &mut String, n: i32)
    ensures final(s)@ == old(s)@ + signed_decimal(n as int),
{
    if n < 0 {
        push_char(s, '-');
        let magnitude: u64 = (-(n as i64)) as u64;
        let ghost mid = s@;
        push_decimal(s, magnitude as u128);
        assert(s@ =~= old(s)@ + signed_decimal(n as int));
    } else {
        push_decimal(s, n as u128);
    }
}

/// The month-title formats of a locale.
pub struct MonthTitleLocale {
    /// Format of a year alone; `{0}` when it adds nothing.
    pub year_format: String,
    /// Format of a month alone; `{0}` when it adds nothing.
    pub month_format: String,
    /// Pattern of the title with two placeholders.
    pub month_year_format: String,
    /// Full month names, January first.
    pub months_long: Vec<String>,
}

/// Month position 0 to 11 for a month number, months past December counting
/// as December and month 0 as January.
pub open spec fn title_month_index(month: int) -> int {
    if month <= 1 { 0 } else if month > 12 { 11 } else { month - 1 }
}

/// Two-digit notation of a month number from 1 to 12.
pub open spec fn two_digits(n: int) -> Seq<char> {
    if n < 10 { seq!['0'] + decimal(n as nat) } else { decimal(n as nat) }
}

/// Whether the locale adds words to a year or month, so that the title uses
/// numbers.
pub open spec fn affixed_numeric(year_format: Seq<char>, month_format: Seq<char>) -> bool {
    year_format != "{0}"@ || month_format != "{0}"@
}

/// Title of a month: with affixed formats the pattern filled with the year and
/// the month number, falling back to `year-MM`; otherwise the pattern filled
/// with the month name and the year, falling back to `name year`.
pub open spec fn spec_month_title(
    year_format: Seq<char>,
    month_format: Seq<char>,
    pattern: Seq<char>,
    names: Seq<Seq<char>>,
    year: int,
    month: int,
) -> Seq<char> {
    let idx = title_month_index(month);
    let y = signed_decimal(year);
    if affixed_numeric(year_format, month_format) {
        match spec_replace_two(pattern, y, decimal((idx + 1) as nat)) {
            Some(t) => t,
            None => y + seq!['-'] + two_digits(idx + 1),
        }
    } else {
        match spec_replace_two(pattern, names[idx], y) {
            Some(t) => t,
            None => names[idx] + seq![' '] + y,
        }
    }
}

/// Title of `month` of `year` in the locale's format.
pub fn localized_month_title(locale: &MonthTitleLocale, year: i32, month: usize) -> (r: String)
    requires locale.months_long@.len() == 12,
    ensures
        r@ == spec_month_title(
            locale.year_format@,
            locale.month_format@,
            locale.month_year_format@,
            locale.months_long@.map_values(|s: String| s@),
            year as int,
            month as int,
        ),
{
    let idx: usize = if month <= 1 { 0 } else if month > 12 { 11 } else { month - 1 };
    let mut numeric = String::new();
    push_decimal(&mut numeric, (idx + 1) as u128);
    let mut year_text = String::new();
    push_signed_decimal(&mut year_text, year);
    proof {
        reveal_strlit("{0}");
    }
    let affixed = !text_eq(locale.year_format.as_str(), "{0}") || !text_eq(locale.month_format.as_str(), "{0}");
    let ghost names = locale.months_long@.map_values(|s: String| s@);
    assert(names[idx as int] == locale.months_long@[idx as int]@);
    if affixed {
        match replace_two_placeholders(locale.month_year_format.as_str(), year_text.as_str(), numeric.as_str()) {
            Some(t) => t,
            None => {
                let mut out = year_text;
                push_char(&mut out, '-');
                if idx + 1 < 10 {
                    push_char(&mut out, '0');
                }
                push_decimal(&mut out, (idx + 1) as u128);
                assert(out@ =~= signed_decimal(year as int) + seq!['-'] + two_digits(idx + 1));
                out
            },
        }
    } else {
        let name = locale.months_long[idx].as_str();
        match replace_two_placeholders(locale.month_year_format.as_str(), name, year_text.as_str()) {
            Some(t) => t,
            None => {
                let mut out = name.to_owned();
                push_char(&mut out, ' ');
                push_text(&mut out, year_text.as_str());
                assert(out@ =~= names[idx as int] + seq![' '] + signed_decimal(year as int));
                out
            },
        }
    }
}

} // verus!
