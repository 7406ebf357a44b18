//! Decimal and calendar-date formatting for artifact names.
//!
//! Screenshots are named by a milliseconds timestamp and saves by a
//! `yyyy-mm-dd` date, so the daemon needs to render unsigned numbers in
//! decimal and to split a day count since the Unix epoch into a
//! Gregorian calendar date.  The clock itself ticks outside; these
//! functions are pure.

use vstd::prelude::*;

verus! {

/// The decimal digit character for `d`.
pub open spec fn spec_digit_char(d: int) -> char {
    if d == 0 {
        '0'
    } else if d == 1 {
        '1'
    } else if d == 2 {
        '2'
    } else if d == 3 {
        '3'
    } else if d == 4 {
        '4'
    } else if d == 5 {
        '5'
    } else if d == 6 {
        '6'
    } else if d == 7 {
        '7'
    } else if d == 8 {
        '8'
    } else {
        '9'
    }
}

/// The decimal rendering of `n`, without leading zeroes (just `0` for
/// zero).
pub open spec fn spec_decimal(n: int) -> Seq<char>
    decreases n,
{
    if n < 10 {
        seq![spec_digit_char(n)]
    } else {
        spec_decimal(n / 10) + seq![spec_digit_char(n % 10)]
    }
}

/// `n` rendered with a leading zero when it is a single digit.
pub open spec fn spec_two_digits(n: int) -> Seq<char> {
    if 0 <= n < 10 {
        seq!['0'] + spec_decimal(n)
    } else {
        spec_decimal(n)
    }
}

/// The `yyyy-mm-dd` rendering of a date (the year as written, months
/// and days padded to two digits).
pub open spec fn spec_ymd(y: int, m: int, d: int) -> Seq<char> {
    spec_decimal(y) + seq!['-'] + spec_two_digits(m) + seq!['-'] + spec_two_digits(d)
}

/// Appends the digit character for `d`.
fn append_digit(s: &mut String, d: u64)
    requires
        d < 10,
    ensures
        final(s)@ == old(s)@ + seq![spec_digit_char(d as int)],
{
    proof {
        reveal_strlit("0");
        reveal_strlit("1");
        reveal_strlit("2");
        reveal_strlit("3");
        reveal_strlit("4");
        reveal_strlit("5");
        reveal_strlit("6");
        reveal_strlit("7");
        reveal_strlit("8");
        reveal_strlit("9");
    }
    if d == 0 {
        s.append("0");
    } else if d == 1 {
        s.append("1");
    } else if d == 2 {
        s.append("2");
    } else if d == 3 {
        s.append("3");
    } else if d == 4 {
        s.append("4");
    } else if d == 5 {
        s.append("5");
    } else if d == 6 {
        s.append("6");
    } else if d == 7 {
        s.append("7");
    } else if d == 8 {
        s.append("8");
    } else {
        s.append("9");
    }
    proof {
        assert(s@ =~= old(s)@ + seq![spec_digit_char(d as int)]);
    }
}

/// Appends the decimal rendering of `n`.
fn append_decimal(s: &mut String, n: u64)
    ensures
        final(s)@ == old(s)@ + spec_decimal(n as int),
    decreases n,
{
    if n >= 10 {
        append_decimal(s, n / 10);
        append_digit(s, n % 10);
        proof {
            assert(s@ =~= old(s)@ + spec_decimal(n as int));
        }
    } else {
        append_digit(s, n);
    }
}

/// The decimal rendering of `n`, as for timestamp file names.
pub fn u64_to_string(n: u64) -> (r: String)
    ensures
        r@ == spec_decimal(n as int),
{
    let mut s = String::new();
    append_decimal(&mut s, n);
    proof {
        assert(s@ =~= spec_decimal(n as int));
    }
    s
}

/// Appends `n` padded to at least two digits.
fn append_two_digits(s: &mut String, n: u64)
    ensures
        final(s)@ == old(s)@ + spec_two_digits(n as int),
{
    if n < 10 {
        proof {
            reveal_strlit("0");
        }
        s.append("0");
        append_decimal(s, n);
        proof {
            assert(s@ =~= old(s)@ + spec_two_digits(n as int));
        }
    } else {
        append_decimal(s, n);
    }
}

/// Whether `y` is a Gregorian leap year.
pub open spec fn spec_is_leap_year(y: int) -> bool {
    y % 4 == 0 && (y % 100 != 0 || y % 400 == 0)
}

/// The number of days in year `y`.
pub open spec fn spec_days_in_year(y: int) -> int {
    if spec_is_leap_year(y) {
        366
    } else {
        365
    }
}

/// The number of days in month `m` of year `y`.
pub open spec fn spec_days_in_month(y: int, m: int) -> int {
    if m == 2 {
        if spec_is_leap_year(y) {
            29
        } else {
            28
        }
    } else if m == 4 || m == 6 || m == 9 || m == 11 {
        30
    } else {
        31
    }
}

/// Days from the Unix epoch to the start of year `y`.
pub open spec fn spec_days_before_year(y: int) -> int
    decreases y - 1970,
{
    if y <= 1970 {
        0
    } else {
        spec_days_before_year(y - 1) + spec_days_in_year(y - 1)
    }
}

/// Days from the start of year `y` to the start of month `m`.
pub open spec fn spec_days_before_month(y: int, m: int) -> int
    decreases m - 1,
{
    if m <= 1 {
        0
    } else {
        spec_days_before_month(y, m - 1) + spec_days_in_month(y, m - 1)
    }
}

/// The day count since the Unix epoch of the date `y-m-d`.
pub open spec fn spec_civil_to_days(y: int, m: int, d: int) -> int {
    spec_days_before_year(y) + spec_days_before_month(y, m) + d - 1
}

/// Whether `y-m-d` is a real calendar date (with the four-digit years
/// the `yyyy-mm-dd` names assume).
pub open spec fn spec_valid_date(y: int, m: int, d: int) -> bool {
    &&& 1970 <= y <= 9999
    &&& 1 <= m <= 12
    &&& 1 <= d <= spec_days_in_month(y, m)
}

/// The last day count this calendar covers: 9999-12-31.
pub open spec fn spec_last_supported_day() -> int {
    spec_civil_to_days(9999, 12, 31)
}

/// The number of days in a year, executable.
fn days_in_year(y: u64) -> (r: u64)
    ensures
        r == spec_days_in_year(y as int),
{
    if y % 4 == 0 && (y % 100 != 0 || y % 400 == 0) {
        366
    } else {
        365
    }
}

/// The number of days in a month, executable.
fn days_in_month(y: u64, m: u64) -> (r: u64)
    requires
        1 <= m <= 12,
    ensures
        r == spec_days_in_month(y as int, m as int),
{
    if m == 2 {
        if y % 4 == 0 && (y % 100 != 0 || y % 400 == 0) {
            29
        } else {
            28
        }
    } else if m == 4 || m == 6 || m == 9 || m == 11 {
        30
    } else {
        31
    }
}

/// The twelve months fill the year exactly, and the day count to the
/// start of a month never exceeds the year's length.
proof fn lemma_months_fill_year(y: int, m: int)
    requires
        1 <= m <= 13,
    ensures
        spec_days_before_month(y, 13) == spec_days_in_year(y),
        spec_days_before_month(y, m) <= spec_days_before_month(y, 13),
    decreases 13 - m,
{
    reveal_with_fuel(spec_days_before_month, 14);
    if m < 13 {
        lemma_months_fill_year(y, m + 1);
    }
}

/// Later years start on later day counts.
proof fn lemma_before_year_monotonic(a: int, b: int)
    requires
        1970 <= a <= b,
    ensures
        spec_days_before_year(a) <= spec_days_before_year(b),
        spec_days_before_year(a) + 365 * (b - a) <= spec_days_before_year(b),
    decreases b - a,
{
    if a < b {
        lemma_before_year_monotonic(a, b - 1);
        assert(365 * (b - a) == 365 * (b - 1 - a) + 365) by (nonlinear_arith);
    }
}

/// Day counts past the supported range start after 9999 begins its last
/// day.
proof fn lemma_year_cap()
    ensures
        spec_days_before_year(10000) > spec_last_supported_day(),
{
    lemma_months_fill_year(9999, 12);
    assert(spec_days_before_month(9999, 13) == spec_days_before_month(9999, 12)
        + spec_days_in_month(9999, 12));
    assert(spec_days_before_year(10000) == spec_days_before_year(9999) + spec_days_in_year(9999));
}

/// The calendar date of day `days` since the Unix epoch, as
/// `(year, month, day)`: the unique valid date with that day count.
pub fn civil_from_days(days: u64) -> (r: (u64, u64, u64))
    requires
        days <= spec_last_supported_day(),
    ensures
        spec_valid_date(r.0 as int, r.1 as int, r.2 as int),
        spec_civil_to_days(r.0 as int, r.1 as int, r.2 as int) == days,
{
    let mut year: u64 = 1970;
    let mut left: u64 = days;
    while left >= days_in_year(year)
        invariant
            year >= 1970,
            spec_days_before_year(year as int) + left == days,
            days <= spec_last_supported_day(),
        decreases left,
    {
        proof {
            assert(spec_days_before_year(year as int + 1) == spec_days_before_year(year as int)
                + spec_days_in_year(year as int));
            lemma_year_cap();
            if year as int + 1 > 10000 {
                lemma_before_year_monotonic(10000, year as int + 1);
                assert(false);
            }
        }
        left = left - days_in_year(year);
        year = year + 1;
    }
    proof {
        lemma_year_cap();
        if year as int > 9999 {
            lemma_before_year_monotonic(10000, year as int);
            assert(false);
        }
        assert(spec_days_before_month(year as int, 1) == 0);
    }
    let mut month: u64 = 1;
    while month < 12 && left >= days_in_month(year, month)
        invariant
            year >= 1970,
            1 <= month <= 12,
            spec_days_before_year(year as int) + spec_days_before_month(year as int, month as int)
                + left == days,
            spec_days_before_month(year as int, month as int) + left < spec_days_in_year(
                year as int,
            ),
        decreases 12 - month,
    {
        left = left - days_in_month(year, month);
        month = month + 1;
    }
    proof {
        lemma_months_fill_year(year as int, month as int);
        if month == 12 {
            assert(spec_days_before_month(year as int, 13) == spec_days_before_month(year as int, 12)
                + spec_days_in_month(year as int, 12));
        }
    }
    (year, month, left + 1)
}

/// The `yyyy-mm-dd` name for a date.
pub fn ymd_string(y: u64, m: u64, d: u64) -> (r: String)
    ensures
        r@ == spec_ymd(y as int, m as int, d as int),
{
    proof {
        reveal_strlit("-");
    }
    let mut s = String::new();
    append_decimal(&mut s, y);
    s.append("-");
    append_two_digits(&mut s, m);
    s.append("-");
    append_two_digits(&mut s, d);
    proof {
        assert(s@ =~= spec_ymd(y as int, m as int, d as int));
    }
    s
}

} // verus!
