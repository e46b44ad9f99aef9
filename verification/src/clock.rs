//! Instants as RFC 3339 text in UTC, written and read by the `chrono` crate.

use crate::model::{optional_text, text_result};
use vstd::prelude::*;

verus! {

/// The seconds from the start of 1970 to the start of the year 10000, the first year that
/// RFC 3339 cannot write.
pub const YEAR_TEN_THOUSAND: u64 = 253_402_300_800;

/// What `chrono::DateTime::parse_from_rfc3339` makes of a text: the instant it denotes,
/// written again in UTC as RFC 3339, or the text of the parse error.
pub uninterp spec fn rfc3339_in_utc(text: Seq<char>) -> Result<Seq<char>, Seq<char>>;

/// What `chrono::DateTime::to_rfc3339` writes for the instant that
/// `chrono::DateTime::from_timestamp` makes of seconds and nanoseconds since the start of
/// 1970; `None` where chrono has no such instant.
pub uninterp spec fn rfc3339_at(seconds: int, nanos: int) -> Option<Seq<char>>;

/// Whether a text is an instant in the form in which this library writes instants: reading
/// it gives the text itself.
pub open spec fn is_canonical(text: Seq<char>) -> bool {
    rfc3339_in_utc(text) == Ok::<Seq<char>, Seq<char>>(text)
}

/// Whether an instant lies in the years 1970 to 9999, with a proper fraction of a second.
pub open spec fn is_writable(seconds: int, nanos: int) -> bool {
    0 <= seconds < YEAR_TEN_THOUSAND && 0 <= nanos < 1_000_000_000
}

/// The time since the start of 1970 by `std::time::SystemTime::elapsed` on `UNIX_EPOCH`, as
/// whole seconds and the nanoseconds of the second begun; `None` where the system clock is
/// set before 1970. A `Duration`'s fraction is less than one second.
#[verifier::external_body]
pub(crate) fn since_epoch() -> (r: Option<(u64, u32)>)
    ensures
        r is Some ==> r->Some_0.1 < 1_000_000_000,
{
    std::time::UNIX_EPOCH.elapsed().ok().map(|d| (d.as_secs(), d.subsec_nanos()))
}

/// Writes the instant at `seconds` and `nanos` since the start of 1970: made by
/// `chrono::DateTime::from_timestamp`, written by `to_rfc3339`. An instant of the years 1970
/// to 9999 is written with a four-digit year and the offset `+00:00`, which
/// `parse_from_rfc3339` reads back as the same instant.
#[verifier::external_body]
pub(crate) fn write_instant(seconds: i64, nanos: u32) -> (r: Option<String>)
    ensures
        optional_text(r) == rfc3339_at(seconds as int, nanos as int),
        is_writable(seconds as int, nanos as int) ==> r is Some && is_canonical(r->Some_0@),
{
    chrono::DateTime::from_timestamp(seconds, nanos).map(|t| t.to_rfc3339())
}

/// Reads an RFC 3339 instant with `chrono::DateTime::parse_from_rfc3339`, moves it to UTC with
/// `with_timezone` and writes it with `to_rfc3339`; the parse error's text where the text is
/// no such instant.
#[verifier::external_body]
pub(crate) fn read_instant(text: &str) -> (r: Result<String, String>)
    ensures
        text_result(r) == rfc3339_in_utc(text@),
{
    chrono::DateTime::parse_from_rfc3339(text).map(
        |t| t.with_timezone(&chrono::Utc).to_rfc3339(),
    ).map_err(|e| e.to_string())
}

/// The instant to write for a time since the start of 1970, `None` where there is no such
/// time or it lies past the year 9999.
pub fn instant_at(elapsed: Option<(u64, u32)>) -> (r: Option<String>)
    ensures
        optional_text(r) == (match elapsed {
            Some((seconds, nanos)) => if seconds < YEAR_TEN_THOUSAND {
                rfc3339_at(seconds as int, nanos as int)
            } else {
                None
            },
            None => None,
        }),
        elapsed matches Some((seconds, nanos)) && is_writable(seconds as int, nanos as int)
            ==> r is Some && is_canonical(r->Some_0@),
{
    match elapsed {
        Some((seconds, nanos)) => if seconds < YEAR_TEN_THOUSAND {
            write_instant(seconds as i64, nanos)
        } else {
            None
        },
        None => None,
    }
}

/// The present instant, `None` where the system clock is set before 1970 or past the year
/// 9999. An instant that is handed out reads back as itself.
pub fn utc_now() -> (now: Option<String>)
    ensures
        now is Some ==> is_canonical(now->Some_0@),
{
    let elapsed = since_epoch();
    let now = instant_at(elapsed);
    proof {
        if now is Some {
            assert(elapsed is Some);
        }
    }
    now
}

} // verus!
