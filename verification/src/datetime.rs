//! The calendar date and time that the clock shows and edits.
use vstd::prelude::*;

verus! {

#[derive(Clone, Copy, Debug, PartialEq, Eq, Structural)]
pub enum DayOfWeek {
    Monday,
    Tuesday,
    Wednesday,
    Thursday,
    Friday,
    Saturday,
    Sunday,
}

/// The English name of a day, as the header writes it.
pub open spec fn day_name(d: DayOfWeek) -> Seq<char> {
    match d {
        DayOfWeek::Monday => "Monday"@,
        DayOfWeek::Tuesday => "Tuesday"@,
        DayOfWeek::Wednesday => "Wednesday"@,
        DayOfWeek::Thursday => "Thursday"@,
        DayOfWeek::Friday => "Friday"@,
        DayOfWeek::Saturday => "Saturday"@,
        DayOfWeek::Sunday => "Sunday"@,
    }
}

impl DayOfWeek {
    pub fn name(&self) -> (s: &'static str)
        ensures
            s@ == day_name(*self),
    {
        match self {
            DayOfWeek::Monday => "Monday",
            DayOfWeek::Tuesday => "Tuesday",
            DayOfWeek::Wednesday => "Wednesday",
            DayOfWeek::Thursday => "Thursday",
            DayOfWeek::Friday => "Friday",
            DayOfWeek::Saturday => "Saturday",
            DayOfWeek::Sunday => "Sunday",
        }
    }
}

/// A broken-down date and time; `month` and `day` count from 1.
#[derive(Clone, Copy, Debug, PartialEq, Eq, Structural)]
pub struct DateTime {
    pub year: u16,
    pub month: u8,
    pub day: u8,
    pub hour: u8,
    pub min: u8,
    pub sec: u8,
    pub day_of_week: DayOfWeek,
}

/// The fields hold a date of the years the clock can be set to, and a time of day.
pub open spec fn in_range(dt: DateTime) -> bool {
    &&& 1970 <= dt.year <= 2105
    &&& 1 <= dt.month <= 12
    &&& 1 <= dt.day <= 31
    &&& dt.hour < 24
    &&& dt.min < 60
    &&& dt.sec < 60
}

/// The start of the epoch: 1970-01-01 00:00:00, a Thursday.
pub open spec fn epoch_datetime() -> DateTime {
    DateTime { year: 1970, month: 1, day: 1, hour: 0, min: 0, sec: 0, day_of_week: DayOfWeek::Thursday }
}

impl DateTime {
    /// The date and time at epoch second 0.
    pub fn epoch() -> (dt: DateTime)
        ensures
            dt == epoch_datetime(),
            in_range(dt),
    {
        DateTime { year: 1970, month: 1, day: 1, hour: 0, min: 0, sec: 0, day_of_week: DayOfWeek::Thursday }
    }
}

} // verus!
