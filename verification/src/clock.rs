//! Calendar timestamps and their text form.
//!
//! The poller never reads a clock. The caller samples local time, hands the
//! fields to [`Timestamp::new`], and gets back a value that is known to be a
//! real moment of the proleptic Gregorian calendar.

use vstd::prelude::*;

verus! {

/// The fields of a timestamp as mathematical integers.
pub struct CivilTime {
    pub year: int,
    pub month: int,
    pub day: int,
    pub hour: int,
    pub minute: int,
    pub second: int,
    pub millisecond: int,
}

/// Whether `year` has a 29th of February.
pub open spec fn is_leap_year(year: int) -> bool {
    year % 4 == 0 && (year % 100 != 0 || year % 400 == 0)
}

/// The number of days of a month, for `month` from 1 to 12.
pub open spec fn days_in_month(year: int, month: int) -> int {
    if month == 2 {
        if is_leap_year(year) {
            29
        } else {
            28
        }
    } else if month == 4 || month == 6 || month == 9 || month == 11 {
        30
    } else {
        31
    }
}

impl CivilTime {
    /// Whether the fields name a day that exists, in a year of four digits,
    /// and a time of that day to the millisecond.
    pub open spec fn is_valid(self) -> bool {
        &&& 0 <= self.year <= 9999
        &&& 1 <= self.month <= 12
        &&& 1 <= self.day <= days_in_month(self.year, self.month)
        &&& 0 <= self.hour < 24
        &&& 0 <= self.minute < 60
        &&& 0 <= self.second < 60
        &&& 0 <= self.millisecond < 1000
    }

    /// Whether two timestamps fall on the same calendar day.
    pub open spec fn same_day(self, other: CivilTime) -> bool {
        self.year == other.year && self.month == other.month && self.day == other.day
    }
}

/// The character for a decimal digit from 0 to 9.
pub open spec fn digit_char(d: int) -> char
    recommends
        0 <= d <= 9,
{
    (0x30 + d) as char
}

/// `n` as two decimal digits, for `n` below one hundred.
pub open spec fn two_digits(n: int) -> Seq<char> {
    seq![digit_char(n / 10), digit_char(n % 10)]
}

/// `n` as three decimal digits, for `n` below one thousand.
pub open spec fn three_digits(n: int) -> Seq<char> {
    seq![digit_char(n / 100), digit_char(n / 10 % 10), digit_char(n % 10)]
}

/// `n` as four decimal digits, for `n` below ten thousand.
pub open spec fn four_digits(n: int) -> Seq<char> {
    seq![digit_char(n / 1000), digit_char(n / 100 % 10), digit_char(n / 10 % 10), digit_char(n % 10)]
}

/// The date as `YYYY-MM-DD`.
pub open spec fn date_text(t: CivilTime) -> Seq<char> {
    four_digits(t.year) + seq!['-'] + two_digits(t.month) + seq!['-'] + two_digits(t.day)
}

/// The time of day as `HH:MM:SS.mmm`.
pub open spec fn time_text(t: CivilTime) -> Seq<char> {
    two_digits(t.hour) + seq![':'] + two_digits(t.minute) + seq![':'] + two_digits(t.second)
        + seq!['.'] + three_digits(t.millisecond)
}

/// The timestamp as `YYYY-MM-DD HH:MM:SS.mmm`.
pub open spec fn stamp_text(t: CivilTime) -> Seq<char> {
    date_text(t) + seq![' '] + time_text(t)
}

/// A moment of local time, to the millisecond.
#[derive(Debug, Clone, Copy, PartialEq, Eq)]
pub struct Timestamp {
    year: i32,
    month: u32,
    day: u32,
    hour: u32,
    minute: u32,
    second: u32,
    millisecond: u32,
}

impl View for Timestamp {
    type V = CivilTime;

    closed spec fn view(&self) -> CivilTime {
        CivilTime {
            year: self.year as int,
            month: self.month as int,
            day: self.day as int,
            hour: self.hour as int,
            minute: self.minute as int,
            second: self.second as int,
            millisecond: self.millisecond as int,
        }
    }
}

/// Computes the number of days of a month.
fn month_length(year: i32, month: u32) -> (days: u32)
    requires
        0 <= year,
    ensures
        days == days_in_month(year as int, month as int),
{
    if month == 2 {
        if year % 4 == 0 && (year % 100 != 0 || year % 400 == 0) {
            29
        } else {
            28
        }
    } else if month == 4 || month == 6 || month == 9 || month == 11 {
        30
    } else {
        31
    }
}

/// Renders a timestamp with chrono: the fields become a `NaiveDate` through
/// `NaiveDate::from_ymd_opt` and a `NaiveDateTime` through
/// `NaiveDate::and_hms_milli_opt`, which `NaiveDateTime::format` then writes
/// under the pattern `%Y-%m-%d %H:%M:%S%.3f`.
///
/// Taken on trust: for a day that exists in a year from 0 to 9999 and a time
/// below 24:00:00.000 both constructors succeed, and the pattern yields the
/// year as four digits, month, day, hour, minute and second as two digits each
/// and the milliseconds as three, zero-padded, joined by `-`, a space, `:` and
/// `.` as the pattern shows.
#[verifier::external_body]
fn format_with_chrono(stamp: &Timestamp) -> (text: String)
    requires
        stamp@.is_valid(),
    ensures
        text@ == stamp_text(stamp@),
{
    let date = chrono::NaiveDate::from_ymd_opt(stamp.year, stamp.month, stamp.day).unwrap();
    let moment = date.and_hms_milli_opt(stamp.hour, stamp.minute, stamp.second, stamp.millisecond)
        .unwrap();
    moment.format("%Y-%m-%d %H:%M:%S%.3f").to_string()
}

impl Timestamp {
    #[verifier::type_invariant]
    spec fn well_formed(self) -> bool {
        self@.is_valid()
    }

    /// Builds a timestamp from its fields, or returns `None` when they name
    /// no moment: a month outside 1 to 12, a day the month does not have, a
    /// time of day past 23:59:59.999, or a year outside 0 to 9999.
    pub fn new(
        year: i32,
        month: u32,
        day: u32,
        hour: u32,
        minute: u32,
        second: u32,
        millisecond: u32,
    ) -> (stamp: Option<Timestamp>)
        ensures
            stamp is Some <==> (CivilTime {
                year: year as int,
                month: month as int,
                day: day as int,
                hour: hour as int,
                minute: minute as int,
                second: second as int,
                millisecond: millisecond as int,
            }).is_valid(),
            stamp matches Some(t) ==> t@ == (CivilTime {
                year: year as int,
                month: month as int,
                day: day as int,
                hour: hour as int,
                minute: minute as int,
                second: second as int,
                millisecond: millisecond as int,
            }),
    {
        if year < 0 || year > 9999 || month < 1 || month > 12 || day < 1 {
            return None;
        }
        if day > month_length(year, month) {
            return None;
        }
        if hour >= 24 || minute >= 60 || second >= 60 || millisecond >= 1000 {
            return None;
        }
        Some(Timestamp { year, month, day, hour, minute, second, millisecond })
    }

    pub fn year(&self) -> (year: i32)
        ensures
            year == self@.year,
    {
        self.year
    }

    pub fn month(&self) -> (month: u32)
        ensures
            month == self@.month,
    {
        self.month
    }

    pub fn day(&self) -> (day: u32)
        ensures
            day == self@.day,
    {
        self.day
    }

    pub fn hour(&self) -> (hour: u32)
        ensures
            hour == self@.hour,
    {
        self.hour
    }

    pub fn minute(&self) -> (minute: u32)
        ensures
            minute == self@.minute,
    {
        self.minute
    }

    pub fn second(&self) -> (second: u32)
        ensures
            second == self@.second,
    {
        self.second
    }

    pub fn millisecond(&self) -> (millisecond: u32)
        ensures
            millisecond == self@.millisecond,
    {
        self.millisecond
    }

    /// The timestamp as `YYYY-MM-DD HH:MM:SS.mmm`, the form a cycle record
    /// carries.
    pub fn text(&self) -> (text: String)
        ensures
            text@ == stamp_text(self@),
            self@.is_valid(),
    {
        proof {
            use_type_invariant(self);
        }
        format_with_chrono(self)
    }
}

} // verus!
