//! Calendar dates and the two text forms in which statements carry them.

use vstd::prelude::*;

verus! {

/// The day-first form, as in `01/03/2024`.
pub const DAY_FIRST_FORMAT: &'static str = "%d/%m/%Y";

/// The year-first form, as in `2024-03-01`.
pub const YEAR_FIRST_FORMAT: &'static str = "%Y-%m-%d";

/// A day of the proleptic Gregorian calendar: the canonical, comparable form of a date.
#[derive(Clone, Copy, Debug, PartialEq, Eq, Structural)]
pub struct CalendarDate {
    pub year: i32,
    pub month: u32,
    pub day: u32,
}

/// What `chrono::NaiveDate::parse_from_str` makes of `text` under `format`: the year, month and
/// day of the date it returns, or `None` where it returns an error.
pub uninterp spec fn chrono_date(text: Seq<char>, format: Seq<char>) -> Option<(int, int, int)>;

/// The year, month and day of an optional date.
pub open spec fn date_fields(d: Option<CalendarDate>) -> Option<(int, int, int)> {
    match d {
        Some(d) => Some((d.year as int, d.month as int, d.day as int)),
        None => None,
    }
}

/// The first of the two readings that is a date: the day-first one, else the year-first one.
pub open spec fn first_reading(
    day_first: Option<(int, int, int)>,
    year_first: Option<(int, int, int)>,
) -> Option<(int, int, int)> {
    match day_first {
        Some(d) => Some(d),
        None => year_first,
    }
}

/// The date that a text denotes: read day-first with `/`, else year-first with `-`.
pub open spec fn date_of(text: Seq<char>) -> Option<(int, int, int)> {
    first_reading(
        chrono_date(text, DAY_FIRST_FORMAT@),
        chrono_date(text, YEAR_FIRST_FORMAT@),
    )
}

impl CalendarDate {
    /// The first day of 1970, which stands in for a posting date that cannot be read.
    pub open spec fn epoch() -> CalendarDate {
        CalendarDate { year: 1970, month: 1, day: 1 }
    }

    /// A number that orders dates as the calendar does: by year, then month, then day.
    pub open spec fn rank(self) -> int {
        self.year as int * 0x1_0000_0000_0000_0000 + self.month as int * 0x1_0000_0000
            + self.day as int
    }

    /// Whether `self` comes strictly before `other` in the calendar.
    pub open spec fn precedes(self, other: CalendarDate) -> bool {
        self.year < other.year || (self.year == other.year && (self.month < other.month || (
        self.month == other.month && self.day < other.day)))
    }

    /// Whether month and day lie in the ranges that the calendar allows at all.
    pub open spec fn in_range(self) -> bool {
        1 <= self.month <= 12 && 1 <= self.day <= 31
    }

    /// The first day of 1970.
    pub fn unix_epoch() -> (d: CalendarDate)
        ensures
            d == CalendarDate::epoch(),
    {
        CalendarDate { year: 1970, month: 1, day: 1 }
    }

    /// The rank of this date.
    pub fn ordinal(&self) -> (r: i128)
        ensures
            r == self.rank(),
    {
        (self.year as i128) * 0x1_0000_0000_0000_0000 + (self.month as i128) * 0x1_0000_0000 + (
        self.day as i128)
    }
}

/// Rank and calendar order agree, and equal ranks mean equal dates.
pub proof fn lemma_rank_orders_dates(a: CalendarDate, b: CalendarDate)
    ensures
        a.precedes(b) <==> a.rank() < b.rank(),
        a.rank() == b.rank() <==> a == b,
{
}

/// Reads `text` with `chrono::NaiveDate::parse_from_str` under `format` and hands out the year,
/// month and day of the date found, by chrono's `Datelike` getters; `None` where chrono reports
/// an error. Chrono documents months from 1 to 12 and days from 1 to 31.
#[verifier::external_body]
pub(crate) fn parse_naive_date(text: &str, format: &str) -> (r: Option<CalendarDate>)
    ensures
        date_fields(r) == chrono_date(text@, format@),
        r matches Some(d) ==> d.in_range(),
{
    chrono::NaiveDate::parse_from_str(text, format).ok().map(
        |d| CalendarDate {
            year: chrono::Datelike::year(&d),
            month: chrono::Datelike::month(&d),
            day: chrono::Datelike::day(&d),
        },
    )
}

/// Picks the date from the two readings of one text: the day-first reading where there is
/// one, else the year-first reading.
pub fn choose_reading(day_first: Option<CalendarDate>, year_first: Option<CalendarDate>) -> (r:
    Option<CalendarDate>)
    ensures
        r == (match day_first {
            Some(d) => Some(d),
            None => year_first,
        }),
        date_fields(r) == first_reading(date_fields(day_first), date_fields(year_first)),
{
    match day_first {
        Some(d) => Some(d),
        None => year_first,
    }
}

/// Reads a date: day/month/year with `/` first, then year-month-day with `-`. No other form
/// is tried; a text in neither form gives `None`.
pub fn parse_date(date_str: &str) -> (r: Option<CalendarDate>)
    ensures
        date_fields(r) == date_of(date_str@),
        r matches Some(d) ==> d.in_range(),
{
    match parse_naive_date(date_str, DAY_FIRST_FORMAT) {
        Some(d) => choose_reading(Some(d), None),
        None => choose_reading(None, parse_naive_date(date_str, YEAR_FIRST_FORMAT)),
    }
}

} // verus!
