//! Calendar dates, as the date column of a record holds them.

use chrono::Datelike;
use vstd::prelude::*;

verus! {

/// A calendar date: year, month and day as they were read.
#[derive(Clone, Copy, Debug, PartialEq, Eq, Structural)]
pub struct Date {
    pub year: i32,
    /// 1 for January.
    pub month: u32,
    /// Day of the month, from 1.
    pub day: u32,
}

/// The date that `chrono` reads from a text, `None` where it reads none.
pub uninterp spec fn date_of_text(text: Seq<char>) -> Option<Date>;

/// Reads a date with `chrono`, by `NaiveDate`'s `FromStr`: year, month and
/// day in numbers with `-` between them. Which texts that accepts is
/// chrono's own business and is not restated here; the contract only gives
/// the outcome its name, [`date_of_text`]. Year, month and day are those that
/// `Datelike` reports of the date read.
#[verifier::external_body]
pub(crate) fn parse_date(text: &str) -> (date: Option<Date>)
    ensures
        date == date_of_text(text@),
{
    match text.parse::<chrono::NaiveDate>() {
        Ok(d) => Some(Date { year: d.year(), month: d.month(), day: d.day() }),
        Err(_) => None,
    }
}

} // verus!
