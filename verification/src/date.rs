//! Calendar dates and instants as plain values.
use vstd::prelude::*;
use crate::reports::format::two_digits;
use crate::text::{i64_text, int_text, push_str};

verus! {

/// Smallest year a calendar date can have.
pub open spec fn min_year() -> int {
    -262143
}

/// Largest year a calendar date can have.
pub open spec fn max_year() -> int {
    262142
}

pub open spec fn is_leap_year(y: int) -> bool {
    (y % 4 == 0 && y % 100 != 0) || y % 400 == 0
}

pub open spec fn days_in_month(y: int, m: int) -> int {
    if m == 2 {
        if is_leap_year(y) {
            29
        } else {
            28
        }
    } else if m == 4 || m == 6 || m == 9 || m == 11 {
        30
    } else {
        31
    }
}

pub open spec fn valid_ymd(y: int, m: int, d: int) -> bool {
    &&& min_year() <= y <= max_year()
    &&& 1 <= m <= 12
    &&& 1 <= d <= days_in_month(y, m)
}

/// A day of the proleptic Gregorian calendar (`chrono::NaiveDate`).
#[derive(Clone, Copy, Debug, PartialEq, Eq, Structural)]
pub struct Date {
    pub year: i32,
    pub month: u32,
    pub day: u32,
}

/// An instant, as seconds and nanoseconds since 1970-01-01 UTC
/// (`chrono::DateTime<Utc>`).
#[derive(Clone, Copy, Debug, PartialEq, Eq, Structural)]
pub struct Timestamp {
    pub seconds: i64,
    pub nanos: u32,
}

/// Calendar order of dates.
pub open spec fn date_before(a: Date, b: Date) -> bool {
    a.year < b.year || (a.year == b.year && (a.month < b.month || (a.month == b.month && a.day
        < b.day)))
}

/// Days of year `y` before the first of month `m`.
pub open spec fn days_before_month(y: int, m: int) -> int {
    let common = if m <= 1 {
        0int
    } else if m == 2 {
        31
    } else if m == 3 {
        59
    } else if m == 4 {
        90
    } else if m == 5 {
        120
    } else if m == 6 {
        151
    } else if m == 7 {
        181
    } else if m == 8 {
        212
    } else if m == 9 {
        243
    } else if m == 10 {
        273
    } else if m == 11 {
        304
    } else {
        334
    };
    common + if m > 2 && is_leap_year(y) {
        1int
    } else {
        0int
    }
}

/// The day count of `Datelike::num_days_from_ce`: January 1 of year 1 is
/// day 1; each earlier year has 365 days, one more in leap years.
pub open spec fn days_from_ce(d: Date) -> int {
    let y = d.year - 1;
    365 * y + y / 4 - y / 100 + y / 400 + days_before_month(d.year as int, d.month as int) + d.day
}

impl Date {
    pub open spec fn valid(self) -> bool {
        valid_ymd(self.year as int, self.month as int, self.day as int)
    }

    /// `NaiveDate::from_ymd_opt`: the date, if it exists.
    pub fn from_ymd_opt(year: i32, month: u32, day: u32) -> (r: Option<Date>)
        ensures
            r is Some <==> valid_ymd(year as int, month as int, day as int),
            r is Some ==> r->0 == (Date { year, month, day }),
    {
        if year < -262143 || year > 262142 || month < 1 || month > 12 || day < 1 {
            return None;
        }
        let leap = (year % 4 == 0 && year % 100 != 0) || year % 400 == 0;
        let dim: u32 = if month == 2 {
            if leap {
                29
            } else {
                28
            }
        } else if month == 4 || month == 6 || month == 9 || month == 11 {
            30
        } else {
            31
        };
        if day > dim {
            None
        } else {
            Some(Date { year, month, day })
        }
    }

    /// `self < other` in calendar order.
    pub fn before(&self, other: &Date) -> (r: bool)
        ensures
            r == date_before(*self, *other),
    {
        self.year < other.year || (self.year == other.year && (self.month < other.month || (
        self.month == other.month && self.day < other.day)))
    }

    /// `self <= other` in calendar order.
    pub fn on_or_before(&self, other: &Date) -> (r: bool)
        ensures
            r == !date_before(*other, *self),
    {
        !other.before(self)
    }
}

/// `Datelike::num_days_from_ce`: days since January 1 of year 1 (day 1).
#[verifier::external_body]
pub(crate) fn num_days_from_ce(d: Date) -> (r: i32)
    requires
        d.valid(),
    ensures
        r == days_from_ce(d),
{
    let nd = chrono::NaiveDate::from_ymd_opt(d.year, d.month, d.day).unwrap();
    chrono::Datelike::num_days_from_ce(&nd)
}

/// `Utc::now()`: the current instant; nothing is known of it.
#[verifier::external_body]
pub(crate) fn utc_now() -> (r: Timestamp) {
    let now = chrono::Utc::now();
    Timestamp { seconds: now.timestamp(), nanos: now.timestamp_subsec_nanos() }
}

/// `Utc::now().date_naive()`: today's date in UTC.
#[verifier::external_body]
pub(crate) fn today_utc() -> (r: Date)
    ensures
        r.valid(),
{
    let d = chrono::Utc::now().date_naive();
    Date {
        year: chrono::Datelike::year(&d),
        month: chrono::Datelike::month(&d),
        day: chrono::Datelike::day(&d),
    }
}

/// `Local::now().naive_local().date()`: today's date in local time.
#[verifier::external_body]
pub(crate) fn today_local() -> (r: Date)
    ensures
        r.valid(),
{
    let d = chrono::Local::now().naive_local().date();
    Date {
        year: chrono::Datelike::year(&d),
        month: chrono::Datelike::month(&d),
        day: chrono::Datelike::day(&d),
    }
}

/// Whole years from `birth` to `on`: the year difference, one less when
/// the birthday has not come yet in the year of `on`.
pub open spec fn age_between(birth: Date, on: Date) -> int {
    let years = on.year - birth.year;
    if on.month < birth.month || (on.month == birth.month && on.day < birth.day) {
        years - 1
    } else {
        years
    }
}

pub fn age_on(birth: Date, on: Date) -> (r: i32)
    requires
        birth.valid(),
        on.valid(),
    ensures
        r == age_between(birth, on),
{
    let mut years = on.year - birth.year;
    if on.month < birth.month || (on.month == birth.month && on.day < birth.day) {
        years = years - 1;
    }
    years
}

/// A number of at least four digits, zeros in front (`{:04}`), for `n >= 0`.
pub open spec fn four_digits(n: int) -> Seq<char> {
    if n < 10 {
        "000"@ + int_text(n)
    } else if n < 100 {
        "00"@ + int_text(n)
    } else if n < 1000 {
        "0"@ + int_text(n)
    } else {
        int_text(n)
    }
}

/// A year as `%Y` writes it: four digits from 0 to 9999, otherwise a sign
/// and at least four digits.
pub open spec fn year_text(y: int) -> Seq<char> {
    if 0 <= y <= 9999 {
        four_digits(y)
    } else if y > 9999 {
        "+"@ + four_digits(y)
    } else {
        "-"@ + four_digits(-y)
    }
}

/// A date as `%Y-%m-%d`.
pub open spec fn iso_date_text(d: Date) -> Seq<char> {
    year_text(d.year as int) + "-"@ + two_digits(d.month as int) + "-"@ + two_digits(d.day as int)
}

fn push_four_digits(out: &mut String, n: i64)
    requires
        0 <= n,
    ensures
        final(out)@ == old(out)@ + four_digits(n as int),
{
    if n < 10 {
        push_str(out, "000");
    } else if n < 100 {
        push_str(out, "00");
    } else if n < 1000 {
        push_str(out, "0");
    }
    let t = i64_text(n);
    push_str(out, t.as_str());
    proof {
        assert(final(out)@ =~= old(out)@ + four_digits(n as int));
    }
}

fn push_two_digits(out: &mut String, n: u32)
    ensures
        final(out)@ == old(out)@ + two_digits(n as int),
{
    if n < 10 {
        push_str(out, "0");
    }
    let t = i64_text(n as i64);
    push_str(out, t.as_str());
    proof {
        assert(final(out)@ =~= old(out)@ + two_digits(n as int));
    }
}

/// A date written `YYYY-MM-DD`.
pub fn date_text(d: Date) -> (r: String)
    ensures
        r@ == iso_date_text(d),
{
    let mut out = String::new();
    let y = d.year as i64;
    if 0 <= y && y <= 9999 {
        push_four_digits(&mut out, y);
    } else if y > 9999 {
        push_str(&mut out, "+");
        push_four_digits(&mut out, y);
    } else {
        push_str(&mut out, "-");
        push_four_digits(&mut out, -y);
    }
    push_str(&mut out, "-");
    push_two_digits(&mut out, d.month);
    push_str(&mut out, "-");
    push_two_digits(&mut out, d.day);
    proof {
        assert(out@ =~= iso_date_text(d));
    }
    out
}

} // verus!
