//! The range of days over which a project runs.

use crate::date::{day_text, is_calendar_day, utc_today, Date, Duration};
use crate::date::{CALENDAR_LAST_DAY, EPOCH_DAY};
use crate::text::{range_string, range_text};
use crate::traits::{TimeBound, TimeBoundError};
use vstd::prelude::*;

verus! {

/// Days between the current day and the start of the window with which an
/// allocation begins its life: three weeks.
pub const DEFAULT_LEAD_DAYS: i32 = 21;

/// Days that the window with which an allocation begins its life lasts: four
/// weeks.
pub const DEFAULT_LENGTH_DAYS: i32 = 28;

/// A range of days, from the day after `start_date` to `end_date`.
///
/// Nothing keeps the start before the end: a range that ends before it
/// starts has a negative duration and is active on no day.
#[derive(PartialEq, Eq, Debug, Copy, Clone, Structural)]
pub struct Allocation {
    pub end_date: Date,
    pub start_date: Date,
}

/// An allocation as two day numbers.
pub struct AllocationView {
    pub start_date: int,
    pub end_date: int,
}

impl View for Allocation {
    type V = AllocationView;

    open spec fn view(&self) -> AllocationView {
        AllocationView { start_date: self.start_date@, end_date: self.end_date@ }
    }
}

impl AllocationView {
    /// The number of days from the start to the end, negative where the end
    /// comes first.
    pub open spec fn duration(self) -> int {
        self.end_date - self.start_date
    }

    /// Whether `day` lies after the start and not after the end.
    pub open spec fn is_active_on(self, day: int) -> bool {
        self.start_date < day <= self.end_date
    }

    /// The range with the same duration that starts on `day`.
    pub open spec fn moved_to(self, day: int) -> AllocationView {
        AllocationView { start_date: day, end_date: day + self.duration() }
    }

    /// The range with the same start that lasts `days` days.
    pub open spec fn lasting(self, days: int) -> AllocationView {
        AllocationView { start_date: self.start_date, end_date: self.start_date + days }
    }

    /// The window with which an allocation begins its life when the current
    /// day is `today`: it starts three weeks later and lasts four.
    pub open spec fn default_from_today(today: int) -> AllocationView {
        AllocationView {
            start_date: today + DEFAULT_LEAD_DAYS,
            end_date: today + DEFAULT_LEAD_DAYS + DEFAULT_LENGTH_DAYS,
        }
    }

    /// Whether the range is a window that starts three weeks after a day
    /// that the system clock can show, and lasts four.
    pub open spec fn is_default(self) -> bool {
        exists|today: int|
            EPOCH_DAY <= today <= CALENDAR_LAST_DAY && self
                == #[trigger] AllocationView::default_from_today(today)
    }

    /// Whether both ends lie within the calendar.
    pub open spec fn in_calendar(self) -> bool {
        is_calendar_day(self.start_date) && is_calendar_day(self.end_date)
    }

    /// The range as it is written out: its two days with ` to ` between
    /// them.
    pub open spec fn text(self) -> Seq<char> {
        range_text(day_text(self.start_date), day_text(self.end_date))
    }
}

impl Allocation {
    /// Returns the time from the start to the end.
    pub fn duration(&self) -> (span: Duration)
        ensures
            span@ == self@.duration(),
    {
        self.end_date.signed_duration_since(&self.start_date)
    }

    /// Tells whether the allocation is active on a day: on the days after
    /// its start, up to and with its end.
    pub fn is_active_on(&self, search_date: &Date) -> (active: bool)
        ensures
            active == self@.is_active_on(search_date@),
    {
        let search_too_early = search_date.num_days_from_ce() <= self.start_date.num_days_from_ce();
        if search_too_early {
            return false;
        }
        let search_too_late = search_date.num_days_from_ce() > self.end_date.num_days_from_ce();
        if search_too_late {
            return false;
        }
        true
    }

    /// The window with which an allocation begins its life when the current
    /// day is `today`.
    pub fn default_from_today(today: &Date) -> (window: Allocation)
        requires
            today@ + DEFAULT_LEAD_DAYS + DEFAULT_LENGTH_DAYS <= i32::MAX,
        ensures
            window@ == AllocationView::default_from_today(today@),
    {
        let start = today.plus(&Duration::weeks(3));
        let end = start.plus(&Duration::weeks(4));
        Allocation { start_date: start, end_date: end }
    }

    /// Whether both ends lie within the calendar, so that the allocation can
    /// be written out.
    pub fn in_calendar(&self) -> (within: bool)
        ensures
            within == self@.in_calendar(),
    {
        self.start_date.in_calendar() && self.end_date.in_calendar()
    }

    /// Writes the range out, as in `2014-07-08UTC to 2014-07-10UTC`.
    pub fn to_string(&self) -> (text: String)
        requires
            self@.in_calendar(),
        ensures
            text@ == self@.text(),
    {
        let start = self.start_date.to_string();
        let end = self.end_date.to_string();
        range_string(start.as_str(), end.as_str())
    }
}

impl Default for Allocation {
    /// The window that starts three weeks after the current day and lasts
    /// four weeks. The current day is read off the system clock.
    fn default() -> (window: Allocation)
        ensures
            window@.is_default(),
    {
        let today = utc_today();
        Allocation::default_from_today(&today)
    }
}

impl TimeBound for Allocation {
    open spec fn spec_start_date(&self) -> Date {
        self.start_date
    }

    open spec fn spec_end_date(&self) -> Date {
        self.end_date
    }

    fn start_date(&self) -> (date: &Date) {
        &self.start_date
    }

    fn end_date(&self) -> (date: &Date) {
        &self.end_date
    }

    /// Lets the range start on `date`, whatever its end.
    fn set_start_date(&mut self, date: &Date) -> (result: Result<Date, TimeBoundError>)
        ensures
            result == Ok::<Date, TimeBoundError>(*date),
            *final(self) == (Allocation { start_date: *date, end_date: old(self).end_date }),
    {
        self.start_date = *date;
        Ok(self.start_date)
    }

    /// Lets the range end on `date`, whatever its start.
    fn set_end_date(&mut self, date: &Date) -> (result: Result<Date, TimeBoundError>)
        ensures
            result == Ok::<Date, TimeBoundError>(*date),
            *final(self) == (Allocation { start_date: old(self).start_date, end_date: *date }),
    {
        self.end_date = *date;
        Ok(self.end_date)
    }
}

/// An allocation is active on the days after its start, up to and with its
/// end, and on no others: not on its start, and on its end only where that
/// comes after the start.
pub proof fn lemma_active_between_start_and_end(range: AllocationView, day: int)
    ensures
        day <= range.start_date || day > range.end_date ==> !range.is_active_on(day),
        !(day <= range.start_date || day > range.end_date) ==> range.is_active_on(day),
        !range.is_active_on(range.start_date),
        range.is_active_on(range.end_date) <==> range.start_date < range.end_date,
{
}

/// A window with which an allocation begins its life lasts four weeks,
/// whatever the current day.
pub proof fn lemma_default_lasts_four_weeks(today: int)
    ensures
        AllocationView::default_from_today(today).duration() == DEFAULT_LENGTH_DAYS,
        AllocationView::default_from_today(today).start_date == today + DEFAULT_LEAD_DAYS,
{
}

/// The system clock decides where the first window lies, not how long it
/// is: it lasts four weeks, and starts three weeks after a day that the
/// clock can show.
pub proof fn lemma_default_window(window: AllocationView)
    requires
        window.is_default(),
    ensures
        window.duration() == DEFAULT_LENGTH_DAYS,
        EPOCH_DAY + DEFAULT_LEAD_DAYS <= window.start_date <= CALENDAR_LAST_DAY
            + DEFAULT_LEAD_DAYS,
{
}

/// Moving a range to another start leaves its duration as it was: both ends
/// shift by the same number of days.
pub proof fn lemma_move_keeps_duration(range: AllocationView, day: int)
    ensures
        range.moved_to(day).start_date == day,
        range.moved_to(day).duration() == range.duration(),
        range.moved_to(day).end_date - range.end_date == day - range.start_date,
{
}

/// Giving a range another duration leaves its start as it was: only the end
/// shifts, to that many days after the start.
pub proof fn lemma_resize_keeps_start(range: AllocationView, days: int)
    ensures
        range.lasting(days).start_date == range.start_date,
        range.lasting(days).end_date == range.start_date + days,
        range.lasting(days).duration() == days,
{
}

} // verus!
