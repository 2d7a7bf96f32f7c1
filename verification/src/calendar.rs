//! Calendar days: reading a written date, telling whether two dates follow each
//! other, and asking the clock for today's date.

use chrono::{Datelike, NaiveDate, Utc};
use vstd::prelude::*;

verus! {

/// What chrono reads out of `text` under the pattern `format`: the date's number
/// of days in the proleptic Gregorian calendar, counted from January 1 of year 1
/// as day 1, or `None` where chrono rejects the text.
pub uninterp spec fn day_number(text: Seq<char>, format: Seq<char>) -> Option<i32>;

/// The pattern in which session dates are written: year, month, day.
pub open spec fn date_format() -> Seq<char> {
    "%Y-%m-%d"@
}

/// Whether two day numbers are both there and the second is one more than the first.
pub open spec fn one_day_apart(last: Option<i32>, current: Option<i32>) -> bool {
    match (last, current) {
        (Some(l), Some(c)) => c - l == 1,
        _ => false,
    }
}

/// Whether `current` is the calendar day after `last`, both written year-month-day.
/// A text that is no date follows nothing and is followed by nothing.
pub open spec fn consecutive_days(last: Seq<char>, current: Seq<char>) -> bool {
    one_day_apart(day_number(last, date_format()), day_number(current, date_format()))
}

/// The text of an optional date.
pub open spec fn date_text(date: Option<String>) -> Option<Seq<char>> {
    match date {
        Some(text) => Some(text@),
        None => None,
    }
}

/// How the day of a session stands to the day of the session before it.
#[derive(Clone, Copy, Debug, PartialEq, Eq, Structural)]
pub enum DayGap {
    /// There was no session before.
    NoPriorSession,
    /// Both sessions fall on one calendar day.
    SameDay,
    /// The session falls on the day after the last one.
    NextDay,
    /// Anything else: days were skipped, the last date lies ahead, or a date
    /// cannot be read.
    Other,
}

/// The gap between the last session's date, if there was one, and today's.
pub open spec fn day_gap(last: Option<Seq<char>>, today: Seq<char>) -> DayGap {
    match last {
        None => DayGap::NoPriorSession,
        Some(date) => if date == today {
            DayGap::SameDay
        } else if consecutive_days(date, today) {
            DayGap::NextDay
        } else {
            DayGap::Other
        },
    }
}

/// Reads `text` as a date with chrono's `NaiveDate::parse_from_str` under the
/// pattern `format`, and hands the date out as the day count that chrono's
/// `Datelike::num_days_from_ce` gives it. The contract claims only that the outcome
/// is a function of the two texts; which texts chrono accepts, and as which day,
/// is not stated here.
#[verifier::external_body]
fn parse_day_number(text: &str, format: &str) -> (day: Option<i32>)
    ensures
        day == day_number(text@, format@),
{
    match NaiveDate::parse_from_str(text, format) {
        Ok(date) => Some(date.num_days_from_ce()),
        Err(_) => None,
    }
}

/// Asks chrono's `Utc::now` for the current moment and writes its UTC calendar
/// date with `DateTime::format` under the pattern `format`. Nothing is claimed of
/// the text that comes back. chrono panics if the system clock stands before 1970.
#[verifier::external_body]
pub(crate) fn utc_date(format: &str) -> (today: String)
    requires
        format@ == date_format(),
{
    Utc::now().format(format).to_string()
}

/// Tells whether two day numbers, as read from two dates, are one day apart.
pub fn days_are_consecutive(last: Option<i32>, current: Option<i32>) -> (consecutive: bool)
    ensures
        consecutive == one_day_apart(last, current),
{
    match (last, current) {
        (Some(l), Some(c)) => c as i64 - l as i64 == 1,
        _ => false,
    }
}

/// Tells whether `current_date` is the calendar day after `last_date`. Both are
/// read as year-month-day; if either cannot be read the answer is no.
pub fn is_consecutive_day(last_date: &str, current_date: &str) -> (consecutive: bool)
    ensures
        consecutive == consecutive_days(last_date@, current_date@),
{
    let last = parse_day_number(last_date, "%Y-%m-%d");
    let current = parse_day_number(current_date, "%Y-%m-%d");
    days_are_consecutive(last, current)
}

/// Classifies today's session against the date of the last one.
pub fn classify_day(last_session_date: &Option<String>, today: &String) -> (gap: DayGap)
    ensures
        gap == day_gap(date_text(*last_session_date), today@),
{
    match last_session_date {
        None => DayGap::NoPriorSession,
        Some(date) => {
            if *date == *today {
                DayGap::SameDay
            } else if is_consecutive_day(date.as_str(), today.as_str()) {
                DayGap::NextDay
            } else {
                DayGap::Other
            }
        },
    }
}

} // verus!
