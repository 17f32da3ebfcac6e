//! What an entity with a range of days, or with a value, can be asked.

use crate::date::Date;
use vstd::prelude::*;

verus! {

/// Why a range of days was refused.
#[derive(Debug, PartialEq, Eq, Structural)]
pub enum TimeBoundError {
    /// The range would not start before it ends.
    InvalidDatesError,
}

impl TimeBoundError {
    /// The error in words.
    pub fn to_string(&self) -> (text: String)
        ensures
            text@ == "Start and end dates are invalid. Go double-check."@,
    {
        match self {
            TimeBoundError::InvalidDatesError => {
                String::from_str("Start and end dates are invalid. Go double-check.")
            },
        }
    }
}

/// An entity that runs from one day to another.
///
/// A setter either takes the day it is given and returns it, leaving the
/// other end of the range alone, or refuses it and changes nothing. It may
/// refuse a day only where the range would no longer start before it ends.
pub trait TimeBound {
    /// The day on which the range starts.
    spec fn spec_start_date(&self) -> Date;

    /// The day on which the range ends.
    spec fn spec_end_date(&self) -> Date;

    /// The day on which the range starts.
    fn start_date(&self) -> (date: &Date)
        ensures
            *date == self.spec_start_date(),
    ;

    /// The day on which the range ends.
    fn end_date(&self) -> (date: &Date)
        ensures
            *date == self.spec_end_date(),
    ;

    /// Lets the range start on `date`.
    fn set_start_date(&mut self, date: &Date) -> (result: Result<Date, TimeBoundError>)
        ensures
            final(self).spec_end_date() == old(self).spec_end_date(),
            match result {
                Ok(set) => set == *date && final(self).spec_start_date() == *date,
                Err(_) => {
                    &&& final(self).spec_start_date() == old(self).spec_start_date()
                    &&& date@ >= old(self).spec_end_date()@
                },
            },
    ;

    /// Lets the range end on `date`.
    fn set_end_date(&mut self, date: &Date) -> (result: Result<Date, TimeBoundError>)
        ensures
            final(self).spec_start_date() == old(self).spec_start_date(),
            match result {
                Ok(set) => set == *date && final(self).spec_end_date() == *date,
                Err(_) => {
                    &&& final(self).spec_end_date() == old(self).spec_end_date()
                    &&& old(self).spec_start_date()@ >= date@
                },
            },
    ;
}

/// An entity that is worth something on some days.
pub trait Contribution {
    /// What the entity contributes on `date`.
    spec fn spec_contribution_on(&self, date: Date) -> nat;

    /// What the entity contributes on `date`.
    fn get_contribution_on(&self, date: &Date) -> (amount: u32)
        ensures
            amount == self.spec_contribution_on(*date),
    ;
}

} // verus!
