//! Calendar days and spans of whole days.
//!
//! A day is known by its number, and all arithmetic on days is arithmetic
//! on numbers. The calendar itself is chrono's: it is asked for the current
//! day and for the way a day is written.

use crate::text::{date_string, date_text};
use vstd::prelude::*;

verus! {

/// Day number of 1970-01-01, the first day that the system clock can show.
pub const EPOCH_DAY: i32 = 719_163;

/// Day number of the first day of the calendar: January 1 of the year
/// -262143.
pub const CALENDAR_FIRST_DAY: i32 = -95_746_129;

/// Day number of the last day of the calendar: December 31 of the year
/// 262142.
pub const CALENDAR_LAST_DAY: i32 = 95_745_399;

/// Whether the day with the number `days` lies within the calendar, so that
/// it has a calendar date.
pub open spec fn is_calendar_day(days: int) -> bool {
    CALENDAR_FIRST_DAY <= days <= CALENDAR_LAST_DAY
}

/// The calendar date of the day with the number `days`, as chrono writes
/// it: year, month and day with hyphens between them, the year with a sign
/// where it is negative or has more than four digits.
///
/// Nothing is stated of this text but that [`calendar_string`] returns it.
pub uninterp spec fn calendar_text(days: int) -> Seq<char>;

/// The day with the number `days` as it is written out: its calendar date,
/// then `UTC`.
pub open spec fn day_text(days: int) -> Seq<char> {
    date_text(calendar_text(days))
}

/// A span of whole days, negative when it runs backwards.
#[derive(Clone, Copy, Debug, PartialEq, Eq, PartialOrd, Ord, Hash, Structural)]
pub struct Duration {
    pub whole_days: i64,
}

impl View for Duration {
    type V = int;

    /// The number of days in the span.
    open spec fn view(&self) -> int {
        self.whole_days as int
    }
}

impl Duration {
    /// A span of `days` days.
    pub fn days(days: i64) -> (span: Duration)
        ensures
            span@ == days,
    {
        Duration { whole_days: days }
    }

    /// A span of `weeks` weeks, seven days each.
    pub fn weeks(weeks: i64) -> (span: Duration)
        requires
            i64::MIN <= 7 * weeks <= i64::MAX,
        ensures
            span@ == 7 * weeks,
    {
        Duration { whole_days: 7 * weeks }
    }

    /// The number of days in the span.
    pub fn num_days(&self) -> (days: i64)
        ensures
            days == self@,
    {
        self.whole_days
    }
}

/// A day in UTC, without a time of day.
///
/// Days are numbered in the proleptic Gregorian calendar, with 0001-01-01 as
/// day 1. Every `i32` is a day; those from [`CALENDAR_FIRST_DAY`] to
/// [`CALENDAR_LAST_DAY`] have a calendar date and can be written out.
#[derive(Clone, Copy, Debug, PartialEq, Eq, PartialOrd, Ord, Hash, Structural)]
pub struct Date {
    pub days_from_ce: i32,
}

impl View for Date {
    type V = int;

    /// The day's number.
    open spec fn view(&self) -> int {
        self.days_from_ce as int
    }
}

impl Date {
    /// The day with the number `days`.
    pub fn from_num_days_from_ce(days: i32) -> (date: Date)
        ensures
            date@ == days,
    {
        Date { days_from_ce: days }
    }

    /// The day's number.
    pub fn num_days_from_ce(&self) -> (days: i32)
        ensures
            days == self@,
    {
        self.days_from_ce
    }

    /// Whether the day lies within the calendar, so that it can be written
    /// out.
    pub fn in_calendar(&self) -> (within: bool)
        ensures
            within == is_calendar_day(self@),
    {
        CALENDAR_FIRST_DAY <= self.days_from_ce && self.days_from_ce <= CALENDAR_LAST_DAY
    }

    /// The span from `earlier` to this day: negative when `earlier` is in
    /// fact the later of the two.
    pub fn signed_duration_since(&self, earlier: &Date) -> (span: Duration)
        ensures
            span@ == self@ - earlier@,
    {
        Duration { whole_days: self.days_from_ce as i64 - earlier.days_from_ce as i64 }
    }

    /// The day `span` after this one, or `None` where no `i32` numbers that
    /// day.
    pub fn checked_add_signed(&self, span: &Duration) -> (sum: Option<Date>)
        ensures
            match sum {
                Some(day) => day@ == self@ + span@,
                None => self@ + span@ < i32::MIN || self@ + span@ > i32::MAX,
            },
    {
        let low: i64 = i32::MIN as i64 - self.days_from_ce as i64;
        let high: i64 = i32::MAX as i64 - self.days_from_ce as i64;
        if low <= span.whole_days && span.whole_days <= high {
            Some(Date { days_from_ce: (self.days_from_ce as i64 + span.whole_days) as i32 })
        } else {
            None
        }
    }

    /// The day `span` after this one.
    pub fn plus(&self, span: &Duration) -> (sum: Date)
        requires
            i32::MIN <= self@ + span@ <= i32::MAX,
        ensures
            sum@ == self@ + span@,
    {
        Date { days_from_ce: (self.days_from_ce as i64 + span.whole_days) as i32 }
    }

    /// Writes the day out, as in `2014-07-08UTC`.
    pub fn to_string(&self) -> (text: String)
        requires
            is_calendar_day(self@),
        ensures
            text@ == day_text(self@),
    {
        let calendar = calendar_string(self);
        date_string(calendar.as_str())
    }
}

/// Reads the current day in UTC off the system clock, through
/// `chrono::Utc::now`.
///
/// Not proved: chrono takes the clock's reading as a time since 1970-01-01
/// and gives it as one of its own dates, none of which lies after the last
/// day of the calendar. Which day comes back is open, and two calls may
/// differ.
#[verifier::external_body]
pub(crate) fn utc_today() -> (today: Date)
    ensures
        EPOCH_DAY <= today@ <= CALENDAR_LAST_DAY,
{
    Date { days_from_ce: chrono::Datelike::num_days_from_ce(&chrono::Utc::now().date_naive()) }
}

/// Writes out the calendar date of a day, through the `Display` of
/// `chrono::NaiveDate`.
///
/// Not proved: chrono has a date for every day number within the calendar,
/// and writes the same text whenever it is given the same day.
#[verifier::external_body]
pub(crate) fn calendar_string(date: &Date) -> (text: String)
    requires
        is_calendar_day(date@),
    ensures
        text@ == calendar_text(date@),
{
    chrono::NaiveDate::from_num_days_from_ce_opt(date.days_from_ce).unwrap().to_string()
}

} // verus!
