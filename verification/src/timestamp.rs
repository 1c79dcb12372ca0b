//! The moment of a detection, at one-second resolution, and its text form.

use chrono::{Datelike, Local, NaiveDate, Timelike};
use vstd::prelude::*;

use crate::text::{
    four_digits, lemma_concat_parts, lemma_four_digits_injective, lemma_two_digits_injective,
    two_digits,
};

verus! {

/// A calendar date and a time of day, as mathematical integers.
pub struct Moment {
    pub year: int,
    pub month: int,
    pub day: int,
    pub hour: int,
    pub minute: int,
    pub second: int,
}

/// The moment with the given fields.
pub open spec fn moment(year: int, month: int, day: int, hour: int, minute: int, second: int)
    -> Moment {
    Moment { year, month, day, hour, minute, second }
}

/// Leap years of the proleptic Gregorian calendar.
pub open spec fn leap_year(year: int) -> bool {
    year % 4 == 0 && (year % 100 != 0 || year % 400 == 0)
}

/// The number of days of a month, for `month` in `1..=12`.
pub open spec fn days_in_month(year: int, month: int) -> int {
    if month == 2 {
        if leap_year(year) {
            29
        } else {
            28
        }
    } else if month == 4 || month == 6 || month == 9 || month == 11 {
        30
    } else {
        31
    }
}

/// A day that exists in the calendar, in a year of four digits, with a time
/// of day on the clock face.
pub open spec fn valid_moment(m: Moment) -> bool {
    &&& 0 <= m.year <= 9999
    &&& 1 <= m.month <= 12
    &&& 1 <= m.day <= days_in_month(m.year, m.month)
    &&& 0 <= m.hour <= 23
    &&& 0 <= m.minute <= 59
    &&& 0 <= m.second <= 59
}

/// The fourteen digits `YYYYMMDDHHMMSS` of a moment.
pub open spec fn stamp_text(m: Moment) -> Seq<char> {
    four_digits(m.year) + two_digits(m.month) + two_digits(m.day) + two_digits(m.hour)
        + two_digits(m.minute) + two_digits(m.second)
}

/// A stamp has fourteen characters.
pub proof fn lemma_stamp_length(m: Moment)
    ensures
        stamp_text(m).len() == 14,
{
}

/// Moments that differ in any field have different stamps.
pub proof fn lemma_stamp_injective(a: Moment, b: Moment)
    requires
        valid_moment(a),
        valid_moment(b),
        stamp_text(a) == stamp_text(b),
    ensures
        a == b,
{
    let a1 = four_digits(a.year);
    let b1 = four_digits(b.year);
    let a2 = a1 + two_digits(a.month);
    let b2 = b1 + two_digits(b.month);
    let a3 = a2 + two_digits(a.day);
    let b3 = b2 + two_digits(b.day);
    let a4 = a3 + two_digits(a.hour);
    let b4 = b3 + two_digits(b.hour);
    let a5 = a4 + two_digits(a.minute);
    let b5 = b4 + two_digits(b.minute);
    lemma_concat_parts(a5, two_digits(a.second), b5, two_digits(b.second));
    lemma_concat_parts(a4, two_digits(a.minute), b4, two_digits(b.minute));
    lemma_concat_parts(a3, two_digits(a.hour), b3, two_digits(b.hour));
    lemma_concat_parts(a2, two_digits(a.day), b2, two_digits(b.day));
    lemma_concat_parts(a1, two_digits(a.month), b1, two_digits(b.month));
    lemma_four_digits_injective(a.year, b.year);
    lemma_two_digits_injective(a.month, b.month);
    lemma_two_digits_injective(a.day, b.day);
    lemma_two_digits_injective(a.hour, b.hour);
    lemma_two_digits_injective(a.minute, b.minute);
    lemma_two_digits_injective(a.second, b.second);
}

/// A valid moment in machine integers.
#[derive(Clone, Copy, Debug, PartialEq, Eq, Structural)]
pub struct Timestamp {
    year: i32,
    month: u32,
    day: u32,
    hour: u32,
    minute: u32,
    second: u32,
}

impl View for Timestamp {
    type V = Moment;

    closed spec fn view(&self) -> Moment {
        moment(
            self.year as int,
            self.month as int,
            self.day as int,
            self.hour as int,
            self.minute as int,
            self.second as int,
        )
    }
}

/// Reads the local wall clock through `chrono::Local::now` and takes the
/// six calendar and clock fields out of it with the accessors of `Datelike`
/// and `Timelike`. The contract repeats the ranges that those accessors
/// document; nothing is claimed about the year. chrono panics where the
/// system clock stands before 1970.
#[verifier::external_body]
fn local_clock() -> (read: (i32, u32, u32, u32, u32, u32))
    ensures
        1 <= read.1 <= 12,
        1 <= read.2 <= 31,
        read.3 <= 23,
        read.4 <= 59,
        read.5 <= 59,
{
    let now = Local::now();
    (now.year(), now.month(), now.day(), now.hour(), now.minute(), now.second())
}

/// Formats a date and time with chrono: `NaiveDate::from_ymd_opt`, then
/// `NaiveDate::and_hms_opt`, then `NaiveDateTime::format` with the pattern
/// `%Y%m%d%H%M%S`. For a year of four digits, chrono builds the value
/// exactly when the day exists in the calendar and the time is on the clock
/// face, and then writes year, month, day, hour, minute and second as
/// zero-padded decimal numbers of four and two digits.
#[verifier::external_body]
fn chrono_stamp(year: i32, month: u32, day: u32, hour: u32, minute: u32, second: u32) -> (text:
    Option<String>)
    requires
        0 <= year <= 9999,
    ensures
        text is Some <==> valid_moment(
            moment(year as int, month as int, day as int, hour as int, minute as int, second as int),
        ),
        text matches Some(s) ==> s@ == stamp_text(
            moment(year as int, month as int, day as int, hour as int, minute as int, second as int),
        ),
{
    let date = NaiveDate::from_ymd_opt(year, month, day)?;
    let at = date.and_hms_opt(hour, minute, second)?;
    Some(format!("{}", at.format("%Y%m%d%H%M%S")))
}

/// The length of a month in days.
fn month_length(year: u32, month: u32) -> (days: u32)
    requires
        1 <= month <= 12,
    ensures
        days == days_in_month(year as int, month as int),
{
    if month == 2 {
        if year % 4 == 0 && (year % 100 != 0 || year % 400 == 0) {
            29
        } else {
            28
        }
    } else if month == 4 || month == 6 || month == 9 || month == 11 {
        30
    } else {
        31
    }
}

impl Timestamp {
    #[verifier::type_invariant]
    spec fn well_formed(self) -> bool {
        valid_moment(self@)
    }

    /// Makes a timestamp from its six fields, if they name a valid moment.
    pub fn new(year: i32, month: u32, day: u32, hour: u32, minute: u32, second: u32) -> (made:
        Option<Timestamp>)
        ensures
            made is Some <==> valid_moment(
                moment(
                    year as int,
                    month as int,
                    day as int,
                    hour as int,
                    minute as int,
                    second as int,
                ),
            ),
            made matches Some(t) ==> t@ == moment(
                year as int,
                month as int,
                day as int,
                hour as int,
                minute as int,
                second as int,
            ),
    {
        if year < 0 || year > 9999 || month < 1 || month > 12 || day < 1 {
            return None;
        }
        if day > month_length(year as u32, month) {
            return None;
        }
        if hour > 23 || minute > 59 || second > 59 {
            return None;
        }
        Some(Timestamp { year, month, day, hour, minute, second })
    }

    /// Reads the local wall clock. The result is `None` when the clock
    /// shows a date outside the years `0..=9999`.
    pub fn now() -> (read: Option<Timestamp>)
        ensures
            read matches Some(t) ==> valid_moment(t@),
    {
        let clock = local_clock();
        Timestamp::new(clock.0, clock.1, clock.2, clock.3, clock.4, clock.5)
    }

    /// The fourteen digits `YYYYMMDDHHMMSS` of this timestamp.
    pub fn stamp(&self) -> (text: String)
        ensures
            text@ == stamp_text(self@),
            valid_moment(self@),
    {
        proof {
            use_type_invariant(self);
        }
        let text = chrono_stamp(
            self.year,
            self.month,
            self.day,
            self.hour,
            self.minute,
            self.second,
        );
        text.unwrap()
    }

    /// The year, `0..=9999`.
    pub fn year(&self) -> (year: i32)
        ensures
            year == self@.year,
            0 <= year <= 9999,
    {
        proof {
            use_type_invariant(self);
        }
        self.year
    }

    /// The month, `1..=12`.
    pub fn month(&self) -> (month: u32)
        ensures
            month == self@.month,
            1 <= month <= 12,
    {
        proof {
            use_type_invariant(self);
        }
        self.month
    }

    /// The day of the month, from `1`.
    pub fn day(&self) -> (day: u32)
        ensures
            day == self@.day,
            1 <= day <= days_in_month(self@.year, self@.month),
    {
        proof {
            use_type_invariant(self);
        }
        self.day
    }

    /// The hour, `0..=23`.
    pub fn hour(&self) -> (hour: u32)
        ensures
            hour == self@.hour,
            hour <= 23,
    {
        proof {
            use_type_invariant(self);
        }
        self.hour
    }

    /// The minute, `0..=59`.
    pub fn minute(&self) -> (minute: u32)
        ensures
            minute == self@.minute,
            minute <= 59,
    {
        proof {
            use_type_invariant(self);
        }
        self.minute
    }

    /// The second, `0..=59`.
    pub fn second(&self) -> (second: u32)
        ensures
            second == self@.second,
            second <= 59,
    {
        proof {
            use_type_invariant(self);
        }
        self.second
    }
}

} // verus!
