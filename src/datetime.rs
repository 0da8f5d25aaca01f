//! Calendar clock record and its one-second rollover.
use vstd::prelude::*;

verus! {

/// Calendar date and time of day. Fields are plain so that explicit set
/// operations may store any value; `valid` is the range invariant that the
/// rollover keeps.
#[derive(Clone, Copy, Debug, PartialEq, Eq, Structural)]
pub struct DateTime {
    pub day: u8,
    pub month: u8,
    pub year: u16,
    pub hours: u8,
    pub minutes: u8,
    pub seconds: u8,
}

/// Gregorian leap-year rule.
pub open spec fn leap_year(year: int) -> bool {
    (year % 4 == 0 && year % 100 != 0) || year % 400 == 0
}

/// Length of a month; months outside 1..=12 count as 30 days.
pub open spec fn month_length(month: int, year: int) -> int {
    if month == 2 {
        if leap_year(year) { 29 } else { 28 }
    } else if month == 4 || month == 6 || month == 9 || month == 11 {
        30
    } else if 1 <= month <= 12 {
        31
    } else {
        30
    }
}

pub fn is_leap_year(year: u16) -> (r: bool)
    ensures
        r == leap_year(year as int),
{
    (year % 4 == 0 && year % 100 != 0) || (year % 400 == 0)
}

pub fn days_in_month(month: u8, year: u16) -> (r: u8)
    ensures
        r as int == month_length(month as int, year as int),
{
    match month {
        1 => 31,
        2 => {
            if is_leap_year(year) {
                29
            } else {
                28
            }
        },
        3 => 31,
        4 => 30,
        5 => 31,
        6 => 30,
        7 => 31,
        8 => 31,
        9 => 30,
        10 => 31,
        11 => 30,
        12 => 31,
        _ => 30,
    }
}

impl DateTime {
    /// Every field within its calendar range.
    pub open spec fn valid(self) -> bool {
        &&& self.hours < 24
        &&& self.minutes < 60
        &&& self.seconds < 60
        &&& 1 <= self.month <= 12
        &&& 1 <= self.day <= month_length(self.month as int, self.year as int)
    }

    /// The record one second later. Each field carries into the next once it
    /// reaches its bound; a field already beyond its bound (after an explicit
    /// set) carries as well. The year wraps at the end of its 16-bit range.
    pub open spec fn next_second(self) -> DateTime {
        if self.seconds + 1 < 60 {
            DateTime { seconds: (self.seconds + 1) as u8, ..self }
        } else if self.minutes + 1 < 60 {
            DateTime { seconds: 0, minutes: (self.minutes + 1) as u8, ..self }
        } else if self.hours + 1 < 24 {
            DateTime { seconds: 0, minutes: 0, hours: (self.hours + 1) as u8, ..self }
        } else if self.day + 1 <= month_length(self.month as int, self.year as int) {
            DateTime { seconds: 0, minutes: 0, hours: 0, day: (self.day + 1) as u8, ..self }
        } else if self.month + 1 <= 12 {
            DateTime {
                seconds: 0,
                minutes: 0,
                hours: 0,
                day: 1,
                month: (self.month + 1) as u8,
                ..self
            }
        } else {
            DateTime {
                seconds: 0,
                minutes: 0,
                hours: 0,
                day: 1,
                month: 1,
                year: ((self.year + 1) % 0x1_0000) as u16,
            }
        }
    }

    /// Advances the record by one second with carry through every field.
    pub fn update(&mut self)
        ensures
            *final(self) == old(self).next_second(),
            old(self).valid() ==> final(self).valid(),
    {
        if self.seconds < 59 {
            self.seconds = self.seconds + 1;
            return;
        }
        self.seconds = 0;
        if self.minutes < 59 {
            self.minutes = self.minutes + 1;
            return;
        }
        self.minutes = 0;
        if self.hours < 23 {
            self.hours = self.hours + 1;
            return;
        }
        self.hours = 0;
        if (self.day as u16) + 1 <= days_in_month(self.month, self.year) as u16 {
            self.day = self.day + 1;
            return;
        }
        self.day = 1;
        if self.month < 12 {
            self.month = self.month + 1;
            return;
        }
        self.month = 1;
        self.year = self.year.wrapping_add(1);
    }
}

impl Default for DateTime {
    /// The record at boot: 1 January 2023, 12:00:00.
    fn default() -> (r: DateTime)
        ensures
            r == (DateTime { day: 1, month: 1, year: 2023, hours: 12, minutes: 0, seconds: 0 }),
    {
        DateTime { day: 1, month: 1, year: 2023, hours: 12, minutes: 0, seconds: 0 }
    }
}

/// Snapshot of the time of day as (hours, minutes, seconds).
pub fn get_time(clock: &DateTime) -> (r: (u8, u8, u8))
    ensures
        r == (clock.hours, clock.minutes, clock.seconds),
{
    (clock.hours, clock.minutes, clock.seconds)
}

/// Snapshot of the date as (day, month, year).
pub fn get_date(clock: &DateTime) -> (r: (u8, u8, u16))
    ensures
        r == (clock.day, clock.month, clock.year),
{
    (clock.day, clock.month, clock.year)
}

/// Overwrites the time of day as given; no range check is made here.
pub fn set_time(clock: &mut DateTime, hours: u8, minutes: u8, seconds: u8)
    ensures
        *final(clock) == (DateTime { hours, minutes, seconds, ..*old(clock) }),
{
    clock.hours = hours;
    clock.minutes = minutes;
    clock.seconds = seconds;
}

/// Overwrites the date as given; no range check is made here.
pub fn set_date(clock: &mut DateTime, day: u8, month: u8, year: u16)
    ensures
        *final(clock) == (DateTime { day, month, year, ..*old(clock) }),
{
    clock.day = day;
    clock.month = month;
    clock.year = year;
}

} // verus!
