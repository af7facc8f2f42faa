//! Times of day, calendar dates and timestamps held as plain numbers, and the
//! calls into chrono that read, subtract and produce them.

use vstd::prelude::*;
use chrono::{Datelike, Timelike};

verus! {

/// A time of day as chrono holds it: whole seconds since midnight and a
/// fraction in nanoseconds, which reaches past one second only during a leap
/// second (the last second of a minute).
#[derive(Clone, Copy, Debug, PartialEq, Eq, Structural)]
pub struct TimeOfDay {
    pub secs: u32,
    pub nanos: u32,
}

impl TimeOfDay {
    pub open spec fn wf(self) -> bool {
        &&& self.secs < 86_400
        &&& self.nanos < 2_000_000_000
        &&& self.nanos >= 1_000_000_000 ==> self.secs % 60 == 59
    }

    pub open spec fn hour(self) -> int {
        self.secs as int / 3600
    }

    pub open spec fn minute(self) -> int {
        (self.secs as int % 3600) / 60
    }

    /// The time at `hour`:`minute`:00 exactly.
    pub open spec fn at(hour: int, minute: int) -> TimeOfDay {
        TimeOfDay { secs: (3600 * hour + 60 * minute) as u32, nanos: 0 }
    }
}

/// A day of the proleptic Gregorian calendar.
#[derive(Clone, Copy, Debug, PartialEq, Eq, Structural)]
pub struct CalendarDate {
    pub year: i32,
    pub month: u32,
    pub day: u32,
}

pub open spec fn is_leap_year(y: int) -> bool {
    y % 4 == 0 && (y % 100 != 0 || y % 400 == 0)
}

pub open spec fn days_in_month(y: int, m: int) -> int {
    if m == 2 {
        if is_leap_year(y) {
            29
        } else {
            28
        }
    } else if m == 4 || m == 6 || m == 9 || m == 11 {
        30
    } else {
        31
    }
}

impl CalendarDate {
    pub open spec fn wf(self) -> bool {
        &&& 1 <= self.month <= 12
        &&& 1 <= self.day <= days_in_month(self.year as int, self.month as int)
    }
}

/// A local date and time, without a time zone.
#[derive(Clone, Copy, Debug, PartialEq, Eq, Structural)]
pub struct DateTime {
    pub date: CalendarDate,
    pub time: TimeOfDay,
}

impl DateTime {
    pub open spec fn wf(self) -> bool {
        self.date.wf() && self.time.wf()
    }
}

/// What chrono's parser makes of a text typed as a time of day.
pub uninterp spec fn parsed_time(s: Seq<char>) -> Option<TimeOfDay>;

/// What chrono's parser makes of a text typed as a date in `%d/%m/%Y`.
pub uninterp spec fn parsed_dmy_date(s: Seq<char>) -> Option<CalendarDate>;

/// Relies on `str::parse::<chrono::NaiveTime>`: a valid time or nothing, and
/// `HH:MM` is read as that hour and minute with no seconds, as its
/// documentation shows for `"23:56"`.
#[verifier::external_body]
pub fn parse_time_of_day(s: &str) -> (r: Option<TimeOfDay>)
    ensures
        r == parsed_time(s@),
        r matches Some(t) ==> t.wf(),
        crate::text::is_time_of_day_text(s@) ==> r == Some(
            TimeOfDay::at(crate::text::clock_hours(s@), crate::text::clock_minutes(s@)),
        ),
{
    s.parse::<chrono::NaiveTime>().ok().map(
        |t| TimeOfDay { secs: t.num_seconds_from_midnight(), nanos: t.nanosecond() },
    )
}

/// Relies on `chrono::NaiveDate::parse_from_str` with `%d/%m/%Y`: a valid
/// calendar date or nothing.
#[verifier::external_body]
pub fn parse_dmy_date(s: &str) -> (r: Option<CalendarDate>)
    ensures
        r == parsed_dmy_date(s@),
        r matches Some(d) ==> d.wf(),
{
    chrono::NaiveDate::parse_from_str(s, "%d/%m/%Y").ok().map(
        |d| CalendarDate { year: d.year(), month: d.month(), day: d.day() },
    )
}

/// Relies on `chrono::Local::now().naive_local()`: the local wall-clock time,
/// a valid date and time.
#[verifier::external_body]
pub fn local_now() -> (r: DateTime)
    ensures
        r.wf(),
{
    let now = chrono::Local::now().naive_local();
    DateTime {
        date: CalendarDate { year: now.year(), month: now.month(), day: now.day() },
        time: TimeOfDay {
            secs: now.num_seconds_from_midnight(),
            nanos: now.nanosecond(),
        },
    }
}

/// The whole seconds that chrono counts from `start` to `end`, before the
/// fractions are carried: a leap second that lies between them is counted.
pub open spec fn delta_secs(start: TimeOfDay, end: TimeOfDay) -> int {
    let base = end.secs as int - start.secs as int;
    if end.secs > start.secs && start.nanos >= 1_000_000_000 {
        base + 1
    } else if end.secs < start.secs && end.nanos >= 1_000_000_000 {
        base - 1
    } else {
        base
    }
}

/// The nanoseconds from `start` to `end`, as chrono's `end - start`.
pub open spec fn delta_nanos(start: TimeOfDay, end: TimeOfDay) -> int {
    1_000_000_000 * delta_secs(start, end) + (end.nanos as int - start.nanos as int)
}

/// The whole minutes from `start` to `end`, rounded toward zero, as chrono's
/// `(end - start).num_minutes()`.
pub open spec fn elapsed_minutes_spec(start: TimeOfDay, end: TimeOfDay) -> int {
    crate::text::trunc_div(
        crate::text::trunc_div(delta_nanos(start, end), 1_000_000_000),
        60,
    )
}

/// Relies on chrono's `NaiveTime - NaiveTime` (`signed_duration_since`) and
/// `TimeDelta::num_minutes`: the signed whole minutes from `start` to `end`.
#[verifier::external_body]
pub fn elapsed_minutes(start: TimeOfDay, end: TimeOfDay) -> (r: i64)
    requires
        start.wf(),
        end.wf(),
    ensures
        r as int == elapsed_minutes_spec(start, end),
{
    let from = chrono::NaiveTime::from_num_seconds_from_midnight_opt(start.secs, start.nanos);
    let to = chrono::NaiveTime::from_num_seconds_from_midnight_opt(end.secs, end.nanos);
    (to.unwrap() - from.unwrap()).num_minutes()
}

} // verus!
