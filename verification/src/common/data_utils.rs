//! Calendar dates as the services use them: `YYYY-MM-DD` day strings, the
//! previous day of a log day, and day differences. Parsing, the previous
//! day, differences, the current day and the printed form come from chrono.
use vstd::prelude::*;

use chrono::{Datelike, Timelike};
use vstd::arithmetic::div_mod::{
    lemma_fundamental_div_mod, lemma_fundamental_div_mod_converse_div,
    lemma_fundamental_div_mod_converse_mod,
};

verus! {

/// The first year chrono can represent.
pub const MIN_YEAR: i32 = -262143;

/// The last year chrono can represent.
pub const MAX_YEAR: i32 = 262142;

/// A calendar date of the proleptic Gregorian calendar.
#[derive(Debug, Clone, Copy, PartialEq, Eq, Structural)]
pub struct Date {
    pub year: i32,
    pub month: u32,
    pub day: u32,
}

/// Leap years of the Gregorian calendar.
pub open spec fn is_leap_year(y: int) -> bool {
    y % 4 == 0 && (y % 100 != 0 || y % 400 == 0)
}

/// The number of days of month `m` of year `y`.
pub open spec fn days_in_month(y: int, m: int) -> int {
    if m == 2 {
        if is_leap_year(y) {
            29
        } else {
            28
        }
    } else if m == 4 || m == 6 || m == 9 || m == 11 {
        30
    } else {
        31
    }
}

/// The days of the months before month `m` in a common year.
pub open spec fn days_before_month(m: int) -> int {
    if m <= 1 {
        0
    } else if m == 2 {
        31
    } else if m == 3 {
        59
    } else if m == 4 {
        90
    } else if m == 5 {
        120
    } else if m == 6 {
        151
    } else if m == 7 {
        181
    } else if m == 8 {
        212
    } else if m == 9 {
        243
    } else if m == 10 {
        273
    } else if m == 11 {
        304
    } else {
        334
    }
}

/// The days of the years before year `y`, counted from January 1 of year 1.
pub open spec fn days_before_year(y: int) -> int {
    365 * (y - 1) + (y - 1) / 4 - (y - 1) / 100 + (y - 1) / 400
}

/// The decimal digit of `n`, for `n < 10`.
pub open spec fn digit_char(n: nat) -> char {
    if n == 0 {
        '0'
    } else if n == 1 {
        '1'
    } else if n == 2 {
        '2'
    } else if n == 3 {
        '3'
    } else if n == 4 {
        '4'
    } else if n == 5 {
        '5'
    } else if n == 6 {
        '6'
    } else if n == 7 {
        '7'
    } else if n == 8 {
        '8'
    } else {
        '9'
    }
}

/// The decimal digits of `n`, without leading zeros.
pub open spec fn decimal(n: nat) -> Seq<char>
    decreases n,
{
    if n < 10 {
        seq![digit_char(n)]
    } else {
        decimal(n / 10).push(digit_char(n % 10))
    }
}

/// The decimal digits of `n`, zero-padded to at least `width` characters.
pub open spec fn padded(n: nat, width: nat) -> Seq<char> {
    let d = decimal(n);
    if d.len() < width {
        Seq::new((width - d.len()) as nat, |i: int| '0') + d
    } else {
        d
    }
}

/// The year as chrono prints it: four digits for years 0 to 9999, and an
/// explicit sign before at least four digits otherwise.
pub open spec fn year_text(y: int) -> Seq<char> {
    if 0 <= y <= 9999 {
        padded(y as nat, 4)
    } else if y > 9999 {
        seq!['+'] + padded(y as nat, 4)
    } else {
        seq!['-'] + padded((-y) as nat, 4)
    }
}

impl Date {
    /// A date that chrono can represent.
    pub open spec fn is_valid(self) -> bool {
        &&& MIN_YEAR <= self.year <= MAX_YEAR
        &&& 1 <= self.month <= 12
        &&& 1 <= self.day <= days_in_month(self.year as int, self.month as int)
    }

    /// The first date chrono can represent.
    pub open spec fn is_first(self) -> bool {
        self.year == MIN_YEAR && self.month == 1 && self.day == 1
    }

    /// The calendar day before this one.
    pub open spec fn previous(self) -> Date {
        if self.day > 1 {
            Date { year: self.year, month: self.month, day: (self.day - 1) as u32 }
        } else if self.month > 1 {
            Date {
                year: self.year,
                month: (self.month - 1) as u32,
                day: days_in_month(self.year as int, self.month - 1) as u32,
            }
        } else {
            Date { year: (self.year - 1) as i32, month: 12, day: 31 }
        }
    }

    /// The previous day, absent for the first representable date.
    pub open spec fn pred_spec(self) -> Option<Date> {
        if self.is_first() {
            None
        } else {
            Some(self.previous())
        }
    }

    /// The position of the date within its year, January 1 being 1.
    pub open spec fn day_of_year(self) -> int {
        days_before_month(self.month as int) + (if is_leap_year(self.year as int)
            && self.month > 2 {
            1int
        } else {
            0int
        }) + self.day
    }

    /// The days since December 31 of year 0: January 1 of year 1 is day 1.
    pub open spec fn day_number(self) -> int {
        days_before_year(self.year as int) + self.day_of_year()
    }

    /// `YYYY-MM-DD`, as chrono prints a date.
    pub open spec fn text(self) -> Seq<char> {
        year_text(self.year as int) + seq!['-'] + padded(self.month as nat, 2) + seq!['-']
            + padded(self.day as nat, 2)
    }
}

/// What `chrono::NaiveDate::parse_from_str(text, fmt)` yields, as a date.
pub uninterp spec fn chrono_parsed_date(text: Seq<char>, fmt: Seq<char>) -> Option<Date>;

/// Calls `chrono::NaiveDate::parse_from_str(text, fmt)` and reads year,
/// month and day of the result. The result is named by `chrono_parsed_date`;
/// a date that chrono returns is one it can represent.
#[verifier::external_body]
fn parse_date(text: &str, fmt: &str) -> (r: Option<Date>)
    ensures
        r == chrono_parsed_date(text@, fmt@),
        r matches Some(d) ==> d.is_valid(),
{
    match chrono::NaiveDate::parse_from_str(text, fmt) {
        Ok(d) => Some(Date { year: d.year(), month: d.month(), day: d.day() }),
        Err(_) => None,
    }
}

/// Calls `chrono::NaiveDate::pred_opt` on the date: the previous calendar
/// date, or `None` for `NaiveDate::MIN`.
#[verifier::external_body]
fn date_pred(d: &Date) -> (r: Option<Date>)
    requires
        d.is_valid(),
    ensures
        r == d.pred_spec(),
{
    let n = chrono::NaiveDate::from_ymd_opt(d.year, d.month, d.day).unwrap();
    match n.pred_opt() {
        Some(p) => Some(Date { year: p.year(), month: p.month(), day: p.day() }),
        None => None,
    }
}

/// Calls `chrono::NaiveDate::signed_duration_since(after, before).num_days()`:
/// the number of days from `before` to `after`.
#[verifier::external_body]
fn days_between(after: &Date, before: &Date) -> (r: i64)
    requires
        after.is_valid(),
        before.is_valid(),
    ensures
        r == after.day_number() - before.day_number(),
{
    let a = chrono::NaiveDate::from_ymd_opt(after.year, after.month, after.day).unwrap();
    let b = chrono::NaiveDate::from_ymd_opt(before.year, before.month, before.day).unwrap();
    a.signed_duration_since(b).num_days()
}

/// A date the local clock can give: one chrono represents, in 1969 or
/// later (the clock is read as time since the Unix epoch, and the local
/// offset moves the date by less than a day).
pub open spec fn is_clock_date(t: Date) -> bool {
    t.is_valid() && t.year >= 1969
}

/// Calls `chrono::Local::now().date_naive()`: today's date in the local
/// time zone. Which date that is depends on the clock; it is a date chrono
/// can represent, and not before 1969: `Utc::now` panics for a clock before
/// the Unix epoch, and a local offset is less than a day.
#[verifier::external_body]
fn local_today() -> (r: Date)
    ensures
        r.is_valid(),
        r.year >= 1969,
{
    let d = chrono::Local::now().date_naive();
    Date { year: d.year(), month: d.month(), day: d.day() }
}

/// Calls `chrono::Local::now()` and reads its `hour()` and `minute()`: the
/// local time of day, which depends on the clock; the hour is below 24 and
/// the minute below 60.
#[verifier::external_body]
fn local_hour_minute() -> (r: (u32, u32))
    ensures
        r.0 < 24,
        r.1 < 60,
{
    let now = chrono::Local::now();
    (now.hour(), now.minute())
}

/// The local hour and minute of the current time.
pub fn local_time_of_day() -> (r: (u32, u32))
    ensures
        r.0 < 24,
        r.1 < 60,
{
    local_hour_minute()
}

/// Calls `to_string` on the `chrono::NaiveDate` of the date: `YYYY-MM-DD`,
/// with a signed year outside 0 to 9999.
#[verifier::external_body]
fn date_display(d: &Date) -> (r: String)
    requires
        d.is_valid(),
    ensures
        r@ == d.text(),
{
    chrono::NaiveDate::from_ymd_opt(d.year, d.month, d.day).unwrap().to_string()
}

/// The `YYYY-MM-DD` form of a date.
pub fn date_to_string(d: &Date) -> (r: String)
    requires
        d.is_valid(),
    ensures
        r@ == d.text(),
{
    date_display(d)
}

/// Today's date in the local time zone, as `YYYY-MM-DD`. Which day it is
/// depends on the clock; it is a date of the clock's range.
pub fn to_day_str() -> (r: String)
    ensures
        exists|d: Date| is_clock_date(d) && r@ == d.text(),
{
    let today = local_today();
    date_display(&today)
}

/// Parses a `YYYY-MM-DD` day string.
pub fn to_naive_date(date_str: &str) -> (r: Option<Date>)
    ensures
        r == chrono_parsed_date(date_str@, "%Y-%m-%d"@),
        r matches Some(d) ==> d.is_valid(),
{
    parse_date(date_str, "%Y-%m-%d")
}

/// The day before the day `date_str` names; when it names no day, the day
/// before `today`.
pub open spec fn previous_day_spec(date_str: Seq<char>, today: Date) -> Option<Date> {
    match chrono_parsed_date(date_str, "%Y-%m-%d"@) {
        Some(d) => d.pred_spec(),
        None => today.pred_spec(),
    }
}

/// The day before the day `date_str` names; when it names no day, the day
/// before `today`.
pub fn to_previous_day_from(date_str: &str, today: &Date) -> (r: Option<Date>)
    requires
        today.is_valid(),
    ensures
        r == previous_day_spec(date_str@, *today),
        r matches Some(p) ==> p.is_valid(),
{
    match to_naive_date(date_str) {
        Some(d) => {
            proof {
                law_previous_day_exists(d);
            }
            date_pred(&d)
        },
        None => {
            proof {
                law_previous_day_exists(*today);
            }
            date_pred(today)
        },
    }
}

/// The day before the day `date_str` names; when it names no day, the day
/// before the current local day.
pub fn to_previous_day(date_str: &str) -> (r: Option<Date>)
    ensures
        chrono_parsed_date(date_str@, "%Y-%m-%d"@) matches Some(d) ==> r == d.pred_spec(),
        exists|t: Date| is_clock_date(t) && r == previous_day_spec(date_str@, t),
        chrono_parsed_date(date_str@, "%Y-%m-%d"@) is None ==> r is Some,
        r matches Some(p) ==> p.is_valid(),
{
    match to_naive_date(date_str) {
        Some(d) => {
            let r = date_pred(&d);
            proof {
                law_previous_day_exists(d);
            }
            let ghost t0 = Date { year: 2000, month: 1, day: 1 };
            assert(is_clock_date(t0) && r == previous_day_spec(date_str@, t0));
            r
        },
        None => {
            let today = local_today();
            let r = date_pred(&today);
            proof {
                law_previous_day_exists(today);
            }
            assert(is_clock_date(today) && r == previous_day_spec(date_str@, today));
            r
        },
    }
}

/// The number of days from `before` to `after`.
pub fn diff_days(before: &Date, after: &Date) -> (r: i64)
    requires
        before.is_valid(),
        after.is_valid(),
    ensures
        r == after.day_number() - before.day_number(),
{
    days_between(after, before)
}

/// Stepping back one unit changes the quotient by `d` exactly at multiples
/// of `d`.
proof fn lemma_div_step(a: int, d: int)
    requires
        d > 0,
    ensures
        a / d - (a - 1) / d == (if a % d == 0 {
            1int
        } else {
            0int
        }),
{
    lemma_fundamental_div_mod(a, d);
    let q = a / d;
    let r = a % d;
    if r > 0 {
        assert(a - 1 == q * d + (r - 1)) by (nonlinear_arith)
            requires
                a == d * q + r,
        ;
        lemma_fundamental_div_mod_converse_div(a - 1, d, q, r - 1);
    } else {
        assert(a - 1 == (q - 1) * d + (d - 1)) by (nonlinear_arith)
            requires
                a == d * q + r,
                r == 0,
        ;
        lemma_fundamental_div_mod_converse_div(a - 1, d, q - 1, d - 1);
    }
}

/// A multiple of `m * k` is a multiple of `m`.
proof fn lemma_multiple_of_factor(a: int, m: int, k: int)
    requires
        m > 0,
        k > 0,
        a % (m * k) == 0,
    ensures
        a % m == 0,
{
    assert(m * k > 0) by (nonlinear_arith)
        requires
            m > 0,
            k > 0,
    ;
    lemma_fundamental_div_mod(a, m * k);
    let q = a / (m * k);
    assert(a == (q * k) * m + 0) by (nonlinear_arith)
        requires
            a == (m * k) * q + a % (m * k),
            a % (m * k) == 0,
    ;
    lemma_fundamental_div_mod_converse_mod(a, m, q * k, 0);
}

/// A year has 366 days when it is a leap year and 365 otherwise.
proof fn lemma_year_length(y: int)
    ensures
        days_before_year(y + 1) - days_before_year(y) == 365 + (if is_leap_year(y) {
            1int
        } else {
            0int
        }),
{
    lemma_div_step(y, 4);
    lemma_div_step(y, 100);
    lemma_div_step(y, 400);
    if y % 400 == 0 {
        lemma_multiple_of_factor(y, 100, 4);
        lemma_multiple_of_factor(y, 4, 100);
    } else if y % 100 == 0 {
        lemma_multiple_of_factor(y, 4, 25);
    }
    assert(days_before_year(y + 1) - days_before_year(y) == 365 + (y / 4 - (y - 1) / 4) - (y
        / 100 - (y - 1) / 100) + (y / 400 - (y - 1) / 400));
}

/// The day before a date (other than the first representable one) is a
/// representable date, and it is exactly one day earlier.
pub proof fn law_previous_day_is_one_day_earlier(d: Date)
    requires
        d.is_valid(),
        !d.is_first(),
    ensures
        d.previous().is_valid(),
        d.previous().day_number() == d.day_number() - 1,
{
    if d.day == 1 && d.month == 1 {
        lemma_year_length(d.year - 1);
    }
}

/// A date the clock can give has a previous day, so the previous day of a
/// day string is always there when the string names no day.
pub proof fn law_clock_date_has_previous_day(date_str: Seq<char>, t: Date)
    requires
        is_clock_date(t),
    ensures
        t.pred_spec() is Some,
        chrono_parsed_date(date_str, "%Y-%m-%d"@) is None ==> previous_day_spec(date_str, t) is Some,
{
}

/// The first representable date has no previous day, and every other
/// representable date has one.
pub proof fn law_previous_day_exists(d: Date)
    requires
        d.is_valid(),
    ensures
        d.pred_spec() is None <==> d.is_first(),
        d.pred_spec() matches Some(p) ==> p.is_valid() && p.day_number() == d.day_number() - 1,
{
    if !d.is_first() {
        law_previous_day_is_one_day_earlier(d);
    }
}

} // verus!
