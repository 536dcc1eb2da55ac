//! Calendar days and times of day, and their rendering through `chrono`.

use vstd::prelude::*;
use chrono::Datelike;

verus! {

/// Whether `year` is a leap year of the Gregorian calendar.
pub open spec fn is_leap_year(year: int) -> bool {
    year % 4 == 0 && (year % 100 != 0 || year % 400 == 0)
}

/// Number of days of `month` in `year`.
pub open spec fn days_in_month(year: int, month: int) -> int {
    if month == 2 {
        if is_leap_year(year) {
            29
        } else {
            28
        }
    } else if month == 4 || month == 6 || month == 9 || month == 11 {
        30
    } else {
        31
    }
}

/// The days a `Date` can hold: every day of the years 1 through 9999.
pub open spec fn is_calendar_day(year: int, month: int, day: int) -> bool {
    &&& 1 <= year <= 9999
    &&& 1 <= month <= 12
    &&& 1 <= day <= days_in_month(year, month)
}

/// The times a `TimeOfDay` can hold.
pub open spec fn is_clock_time(hour: int, minute: int) -> bool {
    0 <= hour < 24 && 0 <= minute < 60
}

/// A day of the Gregorian calendar.
#[derive(Clone, Copy, Debug, PartialEq, Eq)]
pub struct Date {
    year: i32,
    month: u32,
    day: u32,
}

impl Date {
    #[verifier::type_invariant]
    spec fn inv(self) -> bool {
        is_calendar_day(self.year as int, self.month as int, self.day as int)
    }

    pub closed spec fn spec_year(&self) -> i32 {
        self.year
    }

    pub closed spec fn spec_month(&self) -> u32 {
        self.month
    }

    pub closed spec fn spec_day(&self) -> u32 {
        self.day
    }

    /// The date `year`-`month`-`day`, if there is such a day.
    pub fn new(year: i32, month: u32, day: u32) -> (r: Option<Date>)
        ensures
            r is Some <==> is_calendar_day(year as int, month as int, day as int),
            r matches Some(d) ==> d.spec_year() == year && d.spec_month() == month && d.spec_day()
                == day,
    {
        if year < 1 || year > 9999 || month < 1 || month > 12 || day < 1 {
            return None;
        }
        let leap = year % 4 == 0 && (year % 100 != 0 || year % 400 == 0);
        let length: u32 = if month == 2 {
            if leap {
                29
            } else {
                28
            }
        } else if month == 4 || month == 6 || month == 9 || month == 11 {
            30
        } else {
            31
        };
        if day > length {
            None
        } else {
            Some(Date { year, month, day })
        }
    }

    #[verifier::when_used_as_spec(spec_year)]
    pub fn year(&self) -> (r: i32)
        ensures
            r == self.spec_year(),
            1 <= r <= 9999,
    {
        proof {
            use_type_invariant(self);
        }
        self.year
    }

    #[verifier::when_used_as_spec(spec_month)]
    pub fn month(&self) -> (r: u32)
        ensures
            r == self.spec_month(),
            1 <= r <= 12,
    {
        proof {
            use_type_invariant(self);
        }
        self.month
    }

    #[verifier::when_used_as_spec(spec_day)]
    pub fn day(&self) -> (r: u32)
        ensures
            r == self.spec_day(),
            1 <= r <= days_in_month(self.spec_year() as int, self.spec_month() as int),
    {
        proof {
            use_type_invariant(self);
        }
        self.day
    }

    /// Whether two dates are the same day.
    pub fn same_day(&self, other: &Date) -> (r: bool)
        ensures
            r == (*self == *other),
    {
        self.year == other.year && self.month == other.month && self.day == other.day
    }

    /// Seconds from the start of 1970 (UTC) to the midnight that begins this day.
    pub open spec fn spec_midnight(&self) -> int {
        unix_midnight(self.year() as int, self.month() as int, self.day() as int)
    }

    /// This day written as weekday, month and day of the month.
    pub open spec fn spec_long_text(&self) -> Seq<char> {
        long_date_text(
            weekday_from_sunday(self.year() as int, self.month() as int, self.day() as int),
            self.month() as int,
            self.day() as int,
        )
    }

    /// Seconds from the start of 1970 (UTC) to the midnight that begins this day.
    pub fn midnight(&self) -> (r: i64)
        ensures
            r == self.spec_midnight(),
    {
        proof {
            use_type_invariant(self);
        }
        midnight_timestamp(self.year, self.month, self.day)
    }

    /// This day written out, as in "Sunday, March 1".
    pub fn long_text(&self) -> (r: String)
        ensures
            r@ == self.spec_long_text(),
    {
        proof {
            use_type_invariant(self);
        }
        format_long_date(self.year, self.month, self.day)
    }

    /// The day it is now in the local time zone, if the clock can be read and
    /// the day is one a `Date` can hold.
    pub fn today() -> (r: Option<Date>)
        ensures
            r matches Some(d) ==> is_calendar_day(
                d.spec_year() as int,
                d.spec_month() as int,
                d.spec_day() as int,
            ),
    {
        match seconds_since_epoch() {
            Some(seconds) => match local_date_at(seconds) {
                Some((year, month, day)) => Date::new(year, month, day),
                None => None,
            },
            None => None,
        }
    }

    /// A date is the day its parts say: dates of the same year, month and day
    /// are the same date.
    pub proof fn lemma_same_parts(a: Date, b: Date)
        requires
            a.spec_year() == b.spec_year(),
            a.spec_month() == b.spec_month(),
            a.spec_day() == b.spec_day(),
        ensures
            a == b,
    {
    }
}

/// A time of day, to the minute.
#[derive(Clone, Copy, Debug, PartialEq, Eq)]
pub struct TimeOfDay {
    hour: u32,
    minute: u32,
}

impl TimeOfDay {
    #[verifier::type_invariant]
    spec fn inv(self) -> bool {
        is_clock_time(self.hour as int, self.minute as int)
    }

    pub closed spec fn spec_hour(&self) -> u32 {
        self.hour
    }

    pub closed spec fn spec_minute(&self) -> u32 {
        self.minute
    }

    /// The time `hour`:`minute` on the 24-hour clock, if there is such a time.
    pub fn new(hour: u32, minute: u32) -> (r: Option<TimeOfDay>)
        ensures
            r is Some <==> is_clock_time(hour as int, minute as int),
            r matches Some(t) ==> t.spec_hour() == hour && t.spec_minute() == minute,
    {
        if hour < 24 && minute < 60 {
            Some(TimeOfDay { hour, minute })
        } else {
            None
        }
    }

    #[verifier::when_used_as_spec(spec_hour)]
    pub fn hour(&self) -> (r: u32)
        ensures
            r == self.spec_hour(),
            r < 24,
    {
        proof {
            use_type_invariant(self);
        }
        self.hour
    }

    #[verifier::when_used_as_spec(spec_minute)]
    pub fn minute(&self) -> (r: u32)
        ensures
            r == self.spec_minute(),
            r < 60,
    {
        proof {
            use_type_invariant(self);
        }
        self.minute
    }

    /// A time is what its parts say: times of the same hour and minute are the
    /// same time.
    pub proof fn lemma_same_parts(a: TimeOfDay, b: TimeOfDay)
        requires
            a.spec_hour() == b.spec_hour(),
            a.spec_minute() == b.spec_minute(),
        ensures
            a == b,
    {
    }

    /// This time on the 12-hour clock.
    pub open spec fn spec_text(&self) -> Seq<char> {
        clock_text(self.hour() as int, self.minute() as int)
    }

    /// This time on the 12-hour clock, as in "9:05 AM".
    pub fn text(&self) -> (r: String)
        ensures
            r@ == self.spec_text(),
    {
        proof {
            use_type_invariant(self);
        }
        format_clock_time(self.hour, self.minute)
    }
}

/// The character that stands for the decimal digit `n`.
pub open spec fn digit(n: int) -> char {
    if n == 0 {
        '0'
    } else if n == 1 {
        '1'
    } else if n == 2 {
        '2'
    } else if n == 3 {
        '3'
    } else if n == 4 {
        '4'
    } else if n == 5 {
        '5'
    } else if n == 6 {
        '6'
    } else if n == 7 {
        '7'
    } else if n == 8 {
        '8'
    } else {
        '9'
    }
}

/// A time of the 24-hour clock written on the 12-hour clock: the hour from 1 to
/// 12 without a leading zero, a colon, the minute in two digits, a space, and
/// "AM" before noon or "PM" from noon on.
pub open spec fn clock_text(hour: int, minute: int) -> Seq<char> {
    let shown = if hour % 12 == 0 {
        12
    } else {
        hour % 12
    };
    let tens = if shown >= 10 {
        seq![digit(shown / 10)]
    } else {
        Seq::<char>::empty()
    };
    let half = if hour < 12 {
        'A'
    } else {
        'P'
    };
    tens + seq![digit(shown % 10), ':', digit(minute / 10), digit(minute % 10), ' ', half, 'M']
}

/// Days of the Gregorian calendar from the first day of year 1 up to, but not
/// including, the first day of `year`.
pub open spec fn days_before_year(year: int) -> int {
    365 * (year - 1) + (year - 1) / 4 - (year - 1) / 100 + (year - 1) / 400
}

/// Days of `year` that lie before the first day of `month`.
pub open spec fn days_before_month(year: int, month: int) -> int
    decreases month,
{
    if month <= 1 {
        0
    } else {
        days_before_month(year, month - 1) + days_in_month(year, month - 1)
    }
}

/// The number of the day `year`-`month`-`day`, counting 0001-01-01 as day 1.
pub open spec fn day_number(year: int, month: int, day: int) -> int {
    days_before_year(year) + days_before_month(year, month) + day
}

/// The Unix timestamp of 00:00:00 UTC on the day `year`-`month`-`day`: the
/// seconds, at 86400 to the day, from 1970-01-01, which is day 719163.
pub open spec fn unix_midnight(year: int, month: int, day: int) -> int {
    (day_number(year, month, day) - 719163) * 86400
}

/// The day of the week on which `year`-`month`-`day` falls, counted from
/// Sunday: 0 for Sunday up to 6 for Saturday.  Day 1 was a Monday.
pub open spec fn weekday_from_sunday(year: int, month: int, day: int) -> int {
    day_number(year, month, day) % 7
}

/// The English name of the day of the week that lies `weekday` days after
/// Sunday.
pub open spec fn weekday_name(weekday: int) -> Seq<char> {
    if weekday == 0 {
        "Sunday"@
    } else if weekday == 1 {
        "Monday"@
    } else if weekday == 2 {
        "Tuesday"@
    } else if weekday == 3 {
        "Wednesday"@
    } else if weekday == 4 {
        "Thursday"@
    } else if weekday == 5 {
        "Friday"@
    } else {
        "Saturday"@
    }
}

/// The English name of the month `month`.
pub open spec fn month_name(month: int) -> Seq<char> {
    if month == 1 {
        "January"@
    } else if month == 2 {
        "February"@
    } else if month == 3 {
        "March"@
    } else if month == 4 {
        "April"@
    } else if month == 5 {
        "May"@
    } else if month == 6 {
        "June"@
    } else if month == 7 {
        "July"@
    } else if month == 8 {
        "August"@
    } else if month == 9 {
        "September"@
    } else if month == 10 {
        "October"@
    } else if month == 11 {
        "November"@
    } else {
        "December"@
    }
}

/// The day of the month in decimal, without a leading zero.
pub open spec fn day_text(day: int) -> Seq<char> {
    if day >= 10 {
        seq![digit(day / 10), digit(day % 10)]
    } else {
        seq![digit(day)]
    }
}

/// A day written out: the name of its day of the week, a comma, the name of its
/// month and the day of the month, as in "Sunday, March 1".
pub open spec fn long_date_text(weekday: int, month: int, day: int) -> Seq<char> {
    weekday_name(weekday) + ", "@ + month_name(month) + " "@ + day_text(day)
}

/// Calls `chrono::NaiveDate::and_hms_opt(0, 0, 0)` on the given day and reads
/// `DateTime::<Utc>::timestamp` of the result.  The day must exist, so that
/// `NaiveDate::from_ymd_opt` yields a date.  `chrono` documents the timestamp as
/// the number of non-leap seconds since 1970-01-01 00:00:00 UTC, and counts the
/// days of the Gregorian calendar.
#[verifier::external_body]
fn midnight_timestamp(year: i32, month: u32, day: u32) -> (r: i64)
    requires
        is_calendar_day(year as int, month as int, day as int),
    ensures
        r == unix_midnight(year as int, month as int, day as int),
{
    chrono::NaiveDate::from_ymd_opt(year, month, day).unwrap().and_hms_opt(
        0,
        0,
        0,
    ).unwrap().and_utc().timestamp()
}

/// Calls `chrono::NaiveDate::format` with `%A, %B %-d` on the given day.  The day
/// must exist, so that `NaiveDate::from_ymd_opt` yields a date.  `chrono`
/// documents `%A` as the full weekday name, `%B` as the full month name and `%-d`
/// as the day of the month without padding; both names are English, and the
/// day of the week is that of the Gregorian calendar.
#[verifier::external_body]
fn format_long_date(year: i32, month: u32, day: u32) -> (r: String)
    requires
        is_calendar_day(year as int, month as int, day as int),
    ensures
        r@ == long_date_text(
            weekday_from_sunday(year as int, month as int, day as int),
            month as int,
            day as int,
        ),
{
    chrono::NaiveDate::from_ymd_opt(year, month, day).unwrap().format("%A, %B %-d").to_string()
}

/// Calls `chrono::NaiveTime::format` with `%-I:%M %p` on the given time, at
/// second zero.  The time must exist, so that `NaiveTime::from_hms_opt` yields a
/// time.  `chrono` documents `%-I` as the hour of the 12-hour clock (1 to 12)
/// without padding, `%M` as the minute in two digits and `%p` as `AM` or `PM`.
#[verifier::external_body]
fn format_clock_time(hour: u32, minute: u32) -> (r: String)
    requires
        is_clock_time(hour as int, minute as int),
    ensures
        r@ == clock_text(hour as int, minute as int),
{
    chrono::NaiveTime::from_hms_opt(hour, minute, 0).unwrap().format("%-I:%M %p").to_string()
}

/// Makes the instant `seconds` after the Unix epoch with
/// `chrono::DateTime::from_timestamp`, looks up the offset of `chrono::Local` at
/// that instant and hands back year, month and day of the local date.  `None`
/// where the instant or the local date lies beyond what `chrono` can hold.  The
/// result depends on the time zone of the machine, so nothing is claimed of it.
#[verifier::external_body]
fn local_date_at(seconds: u64) -> (r: Option<(i32, u32, u32)>) {
    let now = chrono::DateTime::from_timestamp(i64::try_from(seconds).ok()?, 0)?;
    let offset = *now.with_timezone(&chrono::Local).offset();
    let today = now.naive_utc().checked_add_offset(offset)?.date();
    Some((today.year(), today.month(), today.day()))
}

/// Reads `std::time::SystemTime::now` as whole seconds since the Unix epoch, or
/// `None` where the clock stands before the epoch.  The result depends on the
/// clock of the machine, so nothing is claimed of it.
#[verifier::external_body]
pub(crate) fn seconds_since_epoch() -> (r: Option<u64>) {
    match std::time::SystemTime::now().duration_since(std::time::UNIX_EPOCH) {
        Ok(elapsed) => Some(elapsed.as_secs()),
        Err(_) => None,
    }
}

} // verus!
