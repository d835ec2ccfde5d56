//! Calendar dates as plain year/month/day values.
//!
//! Release calendars carry ISO calendar dates; classification compares them
//! and computes a twelve-month lookahead horizon. The dates live here as
//! plain integers so that the comparisons and the horizon are verified;
//! only reading the clock itself is delegated to an outside crate.

use vstd::prelude::*;
use vstd::string::StringExecFns;

verus! {

/// An ISO calendar date.
#[derive(Clone, Copy, Debug, PartialEq, Eq, Structural)]
pub struct Date {
    pub year: u32,
    pub month: u32,
    pub day: u32,
}

/// Proleptic-Gregorian leap year.
pub open spec fn spec_is_leap_year(y: int) -> bool {
    y % 4 == 0 && (y % 100 != 0 || y % 400 == 0)
}

/// Number of days in month `m` of year `y` (for `m` in 1..=12).
pub open spec fn spec_days_in_month(y: int, m: int) -> int {
    if m == 2 {
        if spec_is_leap_year(y) {
            29
        } else {
            28
        }
    } else if m == 4 || m == 6 || m == 9 || m == 11 {
        30
    } else {
        31
    }
}

/// Executable counterpart of [`spec_days_in_month`].
pub fn days_in_month(y: u32, m: u32) -> (r: u32)
    ensures
        r == spec_days_in_month(y as int, m as int),
{
    if m == 2 {
        if (y % 4 == 0 && y % 100 != 0) || y % 400 == 0 {
            29
        } else {
            28
        }
    } else if m == 4 || m == 6 || m == 9 || m == 11 {
        30
    } else {
        31
    }
}

/// A date that names a real day and fits the four-digit ISO rendering.
pub open spec fn date_wf(d: Date) -> bool {
    &&& 1 <= d.year <= 9999
    &&& 1 <= d.month <= 12
    &&& 1 <= d.day <= spec_days_in_month(d.year as int, d.month as int)
}

impl Date {
    /// Well-formedness of the date, checked at run time; callers use it to
    /// establish [`date_wf`] for values built from unverified input.
    pub fn valid(&self) -> (r: bool)
        ensures
            r == date_wf(*self),
    {
        1 <= self.year && self.year <= 9999 && 1 <= self.month && self.month <= 12 && 1
            <= self.day && self.day <= days_in_month(self.year, self.month)
    }
}

/// Strict calendar order: `a` names an earlier day than `b`.
pub open spec fn date_before(a: Date, b: Date) -> bool {
    ||| a.year < b.year
    ||| (a.year == b.year && a.month < b.month)
    ||| (a.year == b.year && a.month == b.month && a.day < b.day)
}

impl Date {
    /// Whether `self` names an earlier day than `other`.
    pub fn is_before(&self, other: &Date) -> (r: bool)
        ensures
            r == date_before(*self, *other),
    {
        if self.year != other.year {
            self.year < other.year
        } else if self.month != other.month {
            self.month < other.month
        } else {
            self.day < other.day
        }
    }
}

/// The day twelve months after `d`: same month a year later, with the day
/// clamped to the length of that month (a leap day falls back to the 28th).
pub open spec fn spec_one_year_after(d: Date) -> Date {
    let y = (d.year + 1) as u32;
    let dim = spec_days_in_month(y as int, d.month as int);
    Date {
        year: y,
        month: d.month,
        day: if d.day <= dim {
            d.day
        } else {
            dim as u32
        },
    }
}

impl Date {
    /// Executable counterpart of [`spec_one_year_after`].
    pub fn one_year_after(&self) -> (r: Date)
        requires
            self.year < 9999,
        ensures
            r == spec_one_year_after(*self),
    {
        let y = self.year + 1;
        let dim = days_in_month(y, self.month);
        Date {
            year: y,
            month: self.month,
            day: if self.day <= dim {
                self.day
            } else {
                dim
            },
        }
    }
}

/// The character for the decimal digit `n` (any other value maps to `'?'`,
/// which a well-formed date never produces).
pub open spec fn digit_char(n: int) -> char {
    if n == 0 {
        '0'
    } else if n == 1 {
        '1'
    } else if n == 2 {
        '2'
    } else if n == 3 {
        '3'
    } else if n == 4 {
        '4'
    } else if n == 5 {
        '5'
    } else if n == 6 {
        '6'
    } else if n == 7 {
        '7'
    } else if n == 8 {
        '8'
    } else if n == 9 {
        '9'
    } else {
        '?'
    }
}

/// `YYYY-MM-DD` rendering of `d`, digit by digit.
pub open spec fn spec_iso_date(d: Date) -> Seq<char> {
    seq![
        digit_char(((d.year / 1000) % 10) as int),
        digit_char(((d.year / 100) % 10) as int),
        digit_char(((d.year / 10) % 10) as int),
        digit_char((d.year % 10) as int),
        '-',
        digit_char(((d.month / 10) % 10) as int),
        digit_char((d.month % 10) as int),
        '-',
        digit_char(((d.day / 10) % 10) as int),
        digit_char((d.day % 10) as int),
    ]
}

/// The one-character string for the decimal digit `n`.
fn digit_str(n: u32) -> (r: &'static str)
    ensures
        r@ =~= seq![digit_char(n as int)],
{
    proof {
        reveal_strlit("0");
        reveal_strlit("1");
        reveal_strlit("2");
        reveal_strlit("3");
        reveal_strlit("4");
        reveal_strlit("5");
        reveal_strlit("6");
        reveal_strlit("7");
        reveal_strlit("8");
        reveal_strlit("9");
        reveal_strlit("?");
    }
    match n {
        0 => "0",
        1 => "1",
        2 => "2",
        3 => "3",
        4 => "4",
        5 => "5",
        6 => "6",
        7 => "7",
        8 => "8",
        9 => "9",
        _ => "?",
    }
}

impl Date {
    /// The `YYYY-MM-DD` rendering of the date.
    pub fn iso_string(&self) -> (r: String)
        ensures
            r@ == spec_iso_date(*self),
    {
        proof {
            reveal_strlit("-");
        }
        let mut s = String::new();
        s.append(digit_str((self.year / 1000) % 10));
        s.append(digit_str((self.year / 100) % 10));
        s.append(digit_str((self.year / 10) % 10));
        s.append(digit_str(self.year % 10));
        s.append("-");
        s.append(digit_str((self.month / 10) % 10));
        s.append(digit_str(self.month % 10));
        s.append("-");
        s.append(digit_str((self.day / 10) % 10));
        s.append(digit_str(self.day % 10));
        proof {
            assert(s@ =~= spec_iso_date(*self));
        }
        s
    }
}

/// Relies on `chrono::DateTime::from_timestamp` (`None` outside chrono's
/// range, never a panic), `date_naive`, and `chrono::Datelike`: `month()`
/// returns a value in 1..=12 and `day()` a value in 1..=31. The seconds
/// since the epoch come from the system clock; a clock before the epoch is
/// answered with `None` rather than handed to chrono.
#[verifier::external_body]
fn now_ymd() -> (r: Option<(i64, u32, u32)>)
    ensures
        r matches Some(t) ==> 1 <= t.1 <= 12 && 1 <= t.2 <= 31,
{
    let since_epoch = match std::time::SystemTime::now().duration_since(std::time::UNIX_EPOCH) {
        Ok(d) => d,
        Err(_) => return None,
    };
    let day = match chrono::DateTime::from_timestamp(since_epoch.as_secs() as i64, 0) {
        Some(t) => t.date_naive(),
        None => return None,
    };
    Some((chrono::Datelike::year(&day) as i64, chrono::Datelike::month(&day), chrono::Datelike::day(&day)))
}

/// Whether the clock's year, month and day name a day this crate's dates
/// can carry: a well-formed year before 9999, so that the twelve-month
/// horizon also exists.
pub open spec fn clock_date_ok(y: i64, m: u32, d: u32) -> bool {
    1 <= y <= 9998 && date_wf(Date { year: y as u32, month: m, day: d })
}

/// Turns a year, month and day read from a clock into a date, exactly when
/// they name a day this crate's dates can carry.
pub fn date_from_clock(y: i64, m: u32, d: u32) -> (r: Option<Date>)
    ensures
        r is Some <==> clock_date_ok(y, m, d),
        r matches Some(date) ==> date == (Date { year: y as u32, month: m, day: d }),
        r matches Some(date) ==> date_wf(date) && date.year < 9999,
{
    if 1 <= y && y <= 9998 {
        let date = Date { year: y as u32, month: m, day: d };
        if date.valid() {
            Some(date)
        } else {
            None
        }
    } else {
        None
    }
}

/// Today's date in UTC, if the clock names a day this crate's dates can
/// carry; the decision itself is [`date_from_clock`]'s. `None` is only
/// possible on a wildly misset clock.
pub fn today_utc() -> (r: Option<Date>)
    ensures
        r matches Some(d) ==> date_wf(d) && d.year < 9999,
{
    match now_ymd() {
        Some((y, m, d)) => date_from_clock(y, m, d),
        None => None,
    }
}

} // verus!
