//! Dates of the proleptic Gregorian calendar and their day numbers.

use vstd::prelude::*;

verus! {

/// Earliest year a calendar can display.
pub const MIN_YEAR: i32 = 1;

/// Latest year a calendar can display.
pub const MAX_YEAR: i32 = 9999;

/// A calendar date; fields are plain values and may hold any numbers.
#[derive(Debug, Clone, Copy, PartialEq, Eq, Structural)]
pub struct Date {
    /// Year number.
    pub year: i32,
    /// Month number, 1 to 12 for a real date.
    pub month: usize,
    /// Day of the month, starting at 1.
    pub day: usize,
}

impl Date {
    /// Creates a date from its three parts, unchanged.
    pub fn new(year: i32, month: usize, day: usize) -> (d: Date)
        ensures
            d.year == year,
            d.month == month,
            d.day == day,
    {
        Date { year, month, day }
    }
}

/// Whether `year` is a leap year in the proleptic Gregorian calendar.
pub open spec fn spec_is_leap_year(year: int) -> bool {
    (year % 4 == 0 && year % 100 != 0) || year % 400 == 0
}

/// Number of days in `month` of `year`; months outside 1 to 12 count as 31 days.
pub open spec fn spec_days_in_month(year: int, month: int) -> int {
    if month == 2 {
        if spec_is_leap_year(year) { 29 } else { 28 }
    } else if month == 4 || month == 6 || month == 9 || month == 11 {
        30
    } else {
        31
    }
}

/// A year within the range a calendar shows.
pub open spec fn year_in_range(year: int) -> bool {
    MIN_YEAR <= year <= MAX_YEAR
}

/// A real date: a month from 1 to 12 and a day inside that month.
pub open spec fn is_valid_date(year: int, month: int, day: int) -> bool {
    1 <= month <= 12 && 1 <= day <= spec_days_in_month(year, month)
}

/// Days from 0001-01-01 to January 1st of `year`.
pub open spec fn days_before_year(year: int) -> int {
    let p = year - 1;
    365 * p + p / 4 - p / 100 + p / 400
}

/// Days from January 1st of `year` to the first day of `month`.
pub open spec fn days_before_month(year: int, month: int) -> int {
    let base: int = if month <= 1 {
        0
    } else if month == 2 {
        31
    } else if month == 3 {
        59
    } else if month == 4 {
        90
    } else if month == 5 {
        120
    } else if month == 6 {
        151
    } else if month == 7 {
        181
    } else if month == 8 {
        212
    } else if month == 9 {
        243
    } else if month == 10 {
        273
    } else if month == 11 {
        304
    } else {
        334
    };
    base + if month > 2 && spec_is_leap_year(year) { 1int } else { 0int }
}

/// Day number of a date counted from 0001-01-01 (day 0); a day past the end of
/// its month counts on into the following months.
pub open spec fn ordinal(year: int, month: int, day: int) -> int {
    days_before_year(year) + days_before_month(year, month) + day - 1
}

/// Day number of the last day a calendar can show, 9999-12-31.
pub open spec fn max_ordinal() -> int {
    ordinal(MAX_YEAR as int, 12, 31)
}

/// Weekday of the first day of a month, 0 for Monday through 6 for Sunday.
pub open spec fn spec_first_weekday(year: int, month: int) -> int {
    ordinal(year, month, 1) % 7
}

/// Moving to the next month inside a year keeps the day number when the day
/// is counted on from the previous month.
pub proof fn lemma_ordinal_next_month(year: int, month: int, day: int)
    requires 1 <= month <= 11,
    ensures ordinal(year, month + 1, day) == ordinal(year, month, day + spec_days_in_month(year, month)),
{
}

/// A year has 365 days plus one in a leap year.
pub proof fn lemma_days_before_next_year(year: int)
    requires year >= 1,
    ensures
        days_before_year(year + 1) == days_before_year(year) + 365
            + if spec_is_leap_year(year) { 1int } else { 0int },
{
    let p = year - 1;
    vstd::arithmetic::div_mod::lemma_fundamental_div_mod(p, 4);
    vstd::arithmetic::div_mod::lemma_fundamental_div_mod(p + 1, 4);
    vstd::arithmetic::div_mod::lemma_fundamental_div_mod(p, 100);
    vstd::arithmetic::div_mod::lemma_fundamental_div_mod(p + 1, 100);
    vstd::arithmetic::div_mod::lemma_fundamental_div_mod(p, 400);
    vstd::arithmetic::div_mod::lemma_fundamental_div_mod(p + 1, 400);
}

/// Moving from December to January of the next year keeps the day number.
pub proof fn lemma_ordinal_next_year(year: int, day: int)
    requires year >= 1,
    ensures ordinal(year + 1, 1, day) == ordinal(year, 12, day + 31),
{
    lemma_days_before_next_year(year);
}

/// Days before a year grow with the year.
pub proof fn lemma_days_before_year_monotonic(a: int, b: int)
    requires 1 <= a <= b,
    ensures days_before_year(a) + (b - a) * 365 <= days_before_year(b),
    decreases b - a,
{
    if a < b {
        lemma_days_before_year_monotonic(a, b - 1);
        lemma_days_before_next_year(b - 1);
    }
}

/// A real date lies between the first and the last day a calendar shows.
pub proof fn lemma_ordinal_bounds(year: int, month: int, day: int)
    requires
        year_in_range(year),
        is_valid_date(year, month, day),
    ensures
        0 <= ordinal(year, month, day) <= max_ordinal(),
        ordinal(year, month, day) < days_before_year(year + 1),
{
    lemma_days_before_year_monotonic(1, year);
    lemma_days_before_next_year(year);
    if year < MAX_YEAR {
        lemma_days_before_year_monotonic(year + 1, MAX_YEAR as int);
    }
}

/// Days before each month of a year grow with the month.
pub proof fn lemma_days_before_month_monotonic(year: int, a: int, b: int)
    requires 1 <= a < b <= 12,
    ensures days_before_month(year, a) + spec_days_in_month(year, a) <= days_before_month(year, b),
{
}

/// Two real dates within years 1 to 9999 with the same day number are the same date.
pub proof fn lemma_ordinal_injective(y1: int, m1: int, d1: int, y2: int, m2: int, d2: int)
    requires
        year_in_range(y1),
        year_in_range(y2),
        is_valid_date(y1, m1, d1),
        is_valid_date(y2, m2, d2),
        ordinal(y1, m1, d1) == ordinal(y2, m2, d2),
    ensures
        y1 == y2,
        m1 == m2,
        d1 == d2,
{
    lemma_ordinal_bounds(y1, m1, d1);
    lemma_ordinal_bounds(y2, m2, d2);
    if y1 < y2 {
        lemma_days_before_year_monotonic(y1 + 1, y2);
    } else if y2 < y1 {
        lemma_days_before_year_monotonic(y2 + 1, y1);
    }
    if m1 < m2 {
        lemma_days_before_month_monotonic(y1, m1, m2);
    } else if m2 < m1 {
        lemma_days_before_month_monotonic(y1, m2, m1);
    }
}

/// Returns whether `year` is a leap year.
pub fn is_leap_year(year: i32) -> (r: bool)
    ensures r == spec_is_leap_year(year as int),
{
    (divides(year, 4) && !divides(year, 100)) || divides(year, 400)
}

/// Returns the number of days in `month` of `year`.
pub fn days_in_month(year: i32, month: usize) -> (r: usize)
    ensures r == spec_days_in_month(year as int, month as int),
{
    if month == 2 {
        if is_leap_year(year) { 29 } else { 28 }
    } else if month == 4 || month == 6 || month == 9 || month == 11 {
        30
    } else {
        31
    }
}

/// Returns the weekday of the first day of a month, 0 for Monday through 6 for Sunday.
pub fn first_weekday(year: i32, month: usize) -> (r: usize)
    requires
        year_in_range(year as int),
        1 <= month <= 12,
    ensures
        r == spec_first_weekday(year as int, month as int),
        r < 7,
{
    let p: u64 = (year - 1) as u64;
    let before_year: u64 = 365 * p + p / 4 - p / 100 + p / 400;
    let base: u64 = if month <= 1 {
        0
    } else if month == 2 {
        31
    } else if month == 3 {
        59
    } else if month == 4 {
        90
    } else if month == 5 {
        120
    } else if month == 6 {
        151
    } else if month == 7 {
        181
    } else if month == 8 {
        212
    } else if month == 9 {
        243
    } else if month == 10 {
        273
    } else if month == 11 {
        304
    } else {
        334
    };
    let leap: u64 = if month > 2 && is_leap_year(year) { 1 } else { 0 };
    ((before_year + base + leap) % 7) as usize
}

// Divisibility is unchanged by negation.
proof fn lemma_divisible_negation(v: int, d: int)
    requires d > 0,
    ensures (v % d == 0) == ((-v) % d == 0),
{
    vstd::arithmetic::div_mod::lemma_fundamental_div_mod(v, d);
    vstd::arithmetic::div_mod::lemma_fundamental_div_mod(-v, d);
    if v % d == 0 {
        let q = v / d;
        assert(-v == (-q) * d + 0) by (nonlinear_arith) requires v == d * q + 0;
        vstd::arithmetic::div_mod::lemma_fundamental_div_mod_converse(-v, d, -q, 0);
    }
    if (-v) % d == 0 {
        let q = (-v) / d;
        assert(v == (-q) * d + 0) by (nonlinear_arith) requires -v == d * q + 0;
        vstd::arithmetic::div_mod::lemma_fundamental_div_mod_converse(v, d, -q, 0);
    }
}

// Divisibility of a signed year by a positive constant, through its magnitude.
fn divides(value: i32, divisor: u64) -> (r: bool)
    requires divisor > 0,
    ensures r == (value as int % divisor as int == 0),
{
    let magnitude: u64 = if value >= 0 { value as u64 } else { (-(value as i64)) as u64 };
    proof {
        let v = value as int;
        let d = divisor as int;
        if v < 0 {
            lemma_divisible_negation(v, d);
        }
    }
    magnitude % divisor == 0
}

} // verus!
