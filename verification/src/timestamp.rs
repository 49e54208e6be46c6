//! Creation times: a civil date and time of day with its offset from UTC.

use vstd::prelude::*;
use crate::text::{decimal, digit_char};

verus! {

/// The first year a timestamp can lie in: the first year of chrono's dates.
pub const MIN_YEAR: i32 = -262_143;

/// The last year a timestamp can lie in: the last year of chrono's dates.
pub const MAX_YEAR: i32 = 262_142;

/// Whether `year` is a leap year of the proleptic Gregorian calendar.
pub open spec fn is_leap_year(year: int) -> bool {
    year % 4 == 0 && (year % 100 != 0 || year % 400 == 0)
}

/// The number of days of `month` (1 to 12) in `year`.
pub open spec fn days_in_month(year: int, month: int) -> int {
    if month == 2 {
        if is_leap_year(year) {
            29
        } else {
            28
        }
    } else if month == 4 || month == 6 || month == 9 || month == 11 {
        30
    } else {
        31
    }
}

/// Whether the three numbers name a day of the proleptic Gregorian calendar
/// in a year that a timestamp can lie in.
pub open spec fn is_calendar_date(year: int, month: int, day: int) -> bool {
    &&& MIN_YEAR <= year <= MAX_YEAR
    &&& 1 <= month <= 12
    &&& 1 <= day <= days_in_month(year, month)
}

/// `n` (0 to 99) written with two digits.
pub open spec fn two_digits(n: int) -> Seq<char> {
    seq![digit_char(n / 10), digit_char(n % 10)]
}

/// `n` (0 to 9999) written with four digits.
pub open spec fn four_digits(n: int) -> Seq<char> {
    seq![
        digit_char(n / 1000),
        digit_char(n / 100 % 10),
        digit_char(n / 10 % 10),
        digit_char(n % 10),
    ]
}

/// A year as it is displayed: four digits from 0 to 9999; outside that
/// range a sign, then at least four digits.
pub open spec fn year_text(year: int) -> Seq<char> {
    if 0 <= year <= 9999 {
        four_digits(year)
    } else if -9999 <= year < 0 {
        seq!['-'] + four_digits(-year)
    } else if year < 0 {
        seq!['-'] + decimal((-year) as nat)
    } else {
        seq!['+'] + decimal(year as nat)
    }
}

/// A day and a time of day as they are displayed: `DD/MM/YYYY HH:MM`.
pub open spec fn civil_text(year: int, month: int, day: int, hour: int, minute: int) -> Seq<char> {
    two_digits(day) + seq!['/'] + two_digits(month) + seq!['/'] + year_text(year) + seq![' ']
        + two_digits(hour) + seq![':'] + two_digits(minute)
}

/// A civil date and time of day with its offset from UTC, as plain numbers.
pub struct Moment {
    pub year: int,
    pub month: int,
    pub day: int,
    pub hour: int,
    pub minute: int,
    pub second: int,
    /// Nanoseconds since the whole second; from 1_000_000_000 on, the
    /// moment lies in a leap second after second 59.
    pub nanosecond: int,
    /// Seconds that local time is ahead of UTC.
    pub offset: int,
}

impl Moment {
    /// Whether the numbers name a moment that exists.
    pub open spec fn is_valid(self) -> bool {
        &&& is_calendar_date(self.year, self.month, self.day)
        &&& 0 <= self.hour < 24
        &&& 0 <= self.minute < 60
        &&& 0 <= self.second < 60
        &&& 0 <= self.nanosecond < 2_000_000_000
        &&& (self.nanosecond >= 1_000_000_000 ==> self.second == 59)
        &&& -86_400 < self.offset < 86_400
    }

    /// The moment as it is displayed: `DD/MM/YYYY HH:MM`.
    pub open spec fn text(self) -> Seq<char> {
        civil_text(self.year, self.month, self.day, self.hour, self.minute)
    }
}

/// A moment in time that exists: every `Timestamp` is valid.
#[derive(Clone, Copy, Debug, PartialEq, Eq, Structural)]
pub struct Timestamp {
    year: i32,
    month: u32,
    day: u32,
    hour: u32,
    minute: u32,
    second: u32,
    nanosecond: u32,
    offset: i32,
}

impl View for Timestamp {
    type V = Moment;

    closed spec fn view(&self) -> Moment {
        Moment {
            year: self.year as int,
            month: self.month as int,
            day: self.day as int,
            hour: self.hour as int,
            minute: self.minute as int,
            second: self.second as int,
            nanosecond: self.nanosecond as int,
            offset: self.offset as int,
        }
    }
}

/// Whether `year` is a leap year.
fn leap_year(year: i32) -> (leap: bool)
    requires
        MIN_YEAR <= year <= MAX_YEAR,
    ensures
        leap == is_leap_year(year as int),
{
    // 262_400 is a multiple of 400, so the shift keeps every remainder.
    let shifted: i32 = year + 262_400;
    shifted % 4 == 0 && (shifted % 100 != 0 || shifted % 400 == 0)
}

/// The number of days of `month` in `year`.
fn month_length(year: i32, month: u32) -> (days: u32)
    requires
        MIN_YEAR <= year <= MAX_YEAR,
    ensures
        days == days_in_month(year as int, month as int),
{
    if month == 2 {
        if leap_year(year) {
            29
        } else {
            28
        }
    } else if month == 4 || month == 6 || month == 9 || month == 11 {
        30
    } else {
        31
    }
}

impl Timestamp {
    #[verifier::type_invariant]
    spec fn well_formed(self) -> bool {
        self@.is_valid()
    }

    /// Makes a timestamp of the given numbers, if they name a moment that
    /// exists.
    pub fn new(
        year: i32,
        month: u32,
        day: u32,
        hour: u32,
        minute: u32,
        second: u32,
        nanosecond: u32,
        offset: i32,
    ) -> (stamp: Option<Timestamp>)
        ensures
            ({
                let moment = Moment {
                    year: year as int,
                    month: month as int,
                    day: day as int,
                    hour: hour as int,
                    minute: minute as int,
                    second: second as int,
                    nanosecond: nanosecond as int,
                    offset: offset as int,
                };
                match stamp {
                    Some(stamp) => moment.is_valid() && stamp@ == moment,
                    None => !moment.is_valid(),
                }
            }),
    {
        if year < MIN_YEAR || year > MAX_YEAR || month < 1 || month > 12 || day < 1 {
            return None;
        }
        if day > month_length(year, month) {
            return None;
        }
        if hour >= 24 || minute >= 60 || second >= 60 || nanosecond >= 2_000_000_000 {
            return None;
        }
        if nanosecond >= 1_000_000_000 && second != 59 {
            return None;
        }
        if offset <= -86_400 || offset >= 86_400 {
            return None;
        }
        Some(Timestamp { year, month, day, hour, minute, second, nanosecond, offset })
    }

    /// The current local time, if the clock shows a moment that a
    /// timestamp can hold.
    pub fn now() -> (stamp: Option<Timestamp>)
        ensures
            stamp matches Some(t) ==> t@.is_valid(),
    {
        let reading = read_clock();
        Timestamp::new(
            reading.year,
            reading.month,
            reading.day,
            reading.hour,
            reading.minute,
            reading.second,
            reading.nanosecond,
            reading.offset,
        )
    }

    pub fn year(&self) -> (year: i32)
        ensures
            year == self@.year,
    {
        self.year
    }

    pub fn month(&self) -> (month: u32)
        ensures
            month == self@.month,
    {
        self.month
    }

    pub fn day(&self) -> (day: u32)
        ensures
            day == self@.day,
    {
        self.day
    }

    pub fn hour(&self) -> (hour: u32)
        ensures
            hour == self@.hour,
    {
        self.hour
    }

    pub fn minute(&self) -> (minute: u32)
        ensures
            minute == self@.minute,
    {
        self.minute
    }

    pub fn second(&self) -> (second: u32)
        ensures
            second == self@.second,
    {
        self.second
    }

    pub fn nanosecond(&self) -> (nanosecond: u32)
        ensures
            nanosecond == self@.nanosecond,
    {
        self.nanosecond
    }

    /// Seconds that local time is ahead of UTC.
    pub fn offset(&self) -> (offset: i32)
        ensures
            offset == self@.offset,
    {
        self.offset
    }

    /// The timestamp as it is displayed: `DD/MM/YYYY HH:MM`.
    pub fn text(&self) -> (text: String)
        ensures
            self@.is_valid(),
            text@ == self@.text(),
    {
        proof {
            use_type_invariant(self);
        }
        format_civil(self.year, self.month, self.day, self.hour, self.minute)
    }
}

/// Two timestamps of the same numbers are the same timestamp.
pub proof fn law_numbers_tell_the_timestamp(one: Timestamp, other: Timestamp)
    requires
        one@ == other@,
    ensures
        one == other,
{
}

/// What the clock shows, before it is checked.
struct Reading {
    year: i32,
    month: u32,
    day: u32,
    hour: u32,
    minute: u32,
    second: u32,
    nanosecond: u32,
    offset: i32,
}

/// Reads the local time with `chrono::Local::now` and takes it apart into
/// its civil fields and its offset from UTC. Nothing is claimed of what the
/// clock shows. As in chrono, the call stops the program when the system
/// clock stands before 1970.
#[verifier::external_body]
fn read_clock() -> (reading: Reading) {
    let now = chrono::Local::now();
    Reading {
        year: chrono::Datelike::year(&now),
        month: chrono::Datelike::month(&now),
        day: chrono::Datelike::day(&now),
        hour: chrono::Timelike::hour(&now),
        minute: chrono::Timelike::minute(&now),
        second: chrono::Timelike::second(&now),
        nanosecond: chrono::Timelike::nanosecond(&now),
        offset: now.offset().local_minus_utc(),
    }
}

/// Formats a civil date and time of day with chrono's
/// `NaiveDateTime::format` and the pattern `%d/%m/%Y %H:%M`. Claimed of it:
/// day, month, hour and minute come zero-padded to two digits, the year
/// zero-padded to four digits, with a sign before it when it lies outside
/// 0 to 9999, and the separators stand as written in the pattern.
#[verifier::external_body]
fn format_civil(year: i32, month: u32, day: u32, hour: u32, minute: u32) -> (text: String)
    requires
        is_calendar_date(year as int, month as int, day as int),
        hour < 24,
        minute < 60,
    ensures
        text@ == civil_text(year as int, month as int, day as int, hour as int, minute as int),
{
    let date = chrono::NaiveDate::from_ymd_opt(year, month, day).unwrap();
    let time = date.and_hms_opt(hour, minute, 0).unwrap();
    time.format("%d/%m/%Y %H:%M").to_string()
}

} // verus!
