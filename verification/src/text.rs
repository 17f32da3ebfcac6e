//! How dates, allocations and projects are written out.
//!
//! The calendar date of a day comes from the calendar itself (see
//! [`crate::date::calendar_text`]); everything around it is laid down here.

use vstd::prelude::*;

verus! {

/// The character of a decimal digit.
pub open spec fn digit_char(digit: nat) -> char
    recommends
        digit < 10,
{
    if digit == 0 {
        '0'
    } else if digit == 1 {
        '1'
    } else if digit == 2 {
        '2'
    } else if digit == 3 {
        '3'
    } else if digit == 4 {
        '4'
    } else if digit == 5 {
        '5'
    } else if digit == 6 {
        '6'
    } else if digit == 7 {
        '7'
    } else if digit == 8 {
        '8'
    } else {
        '9'
    }
}

/// A number in decimal digits, without sign or leading zeros.
pub open spec fn decimal_text(n: nat) -> Seq<char>
    decreases n,
{
    if n < 10 {
        seq![digit_char(n)]
    } else {
        decimal_text(n / 10).push(digit_char(n % 10))
    }
}

/// A date in UTC: its calendar date, then the name of the time zone.
pub open spec fn date_text(calendar: Seq<char>) -> Seq<char> {
    calendar + "UTC"@
}

/// A range of days: its first and last, as they are written out.
pub open spec fn range_text(start: Seq<char>, end: Seq<char>) -> Seq<char> {
    start + " to "@ + end
}

/// A project: its name, its allocation in brackets, its value.
pub open spec fn project_text(name: Seq<char>, allocation: Seq<char>, value: nat) -> Seq<char> {
    name + " ("@ + allocation + ") "@ + decimal_text(value)
}

fn digit_str(digit: u32) -> (text: &'static str)
    requires
        digit < 10,
    ensures
        text@ == seq![digit_char(digit as nat)],
{
    proof {
        reveal_strlit("0");
        reveal_strlit("1");
        reveal_strlit("2");
        reveal_strlit("3");
        reveal_strlit("4");
        reveal_strlit("5");
        reveal_strlit("6");
        reveal_strlit("7");
        reveal_strlit("8");
        reveal_strlit("9");
    }
    let text = if digit == 0 {
        "0"
    } else if digit == 1 {
        "1"
    } else if digit == 2 {
        "2"
    } else if digit == 3 {
        "3"
    } else if digit == 4 {
        "4"
    } else if digit == 5 {
        "5"
    } else if digit == 6 {
        "6"
    } else if digit == 7 {
        "7"
    } else if digit == 8 {
        "8"
    } else {
        "9"
    };
    assert(text@ =~= seq![digit_char(digit as nat)]);
    text
}

/// Writes a number in decimal digits.
pub fn decimal_string(n: u32) -> (text: String)
    ensures
        text@ == decimal_text(n as nat),
    decreases n,
{
    if n < 10 {
        String::from_str(digit_str(n))
    } else {
        let text = decimal_string(n / 10).concat(digit_str(n % 10));
        assert(text@ =~= decimal_text(n as nat));
        text
    }
}

/// Writes a date in UTC from its calendar date.
pub fn date_string(calendar: &str) -> (text: String)
    ensures
        text@ == date_text(calendar@),
{
    String::from_str(calendar).concat("UTC")
}

/// Writes a range of days from its first and last day.
pub fn range_string(start: &str, end: &str) -> (text: String)
    ensures
        text@ == range_text(start@, end@),
{
    String::from_str(start).concat(" to ").concat(end)
}

/// Writes a project from its name, its allocation and its value.
pub fn project_string(name: &str, allocation: &str, value: u32) -> (text: String)
    ensures
        text@ == project_text(name@, allocation@, value as nat),
{
    let digits = decimal_string(value);
    String::from_str(name).concat(" (").concat(allocation).concat(") ").concat(digits.as_str())
}

} // verus!
