//! Calendar dates and instants, as numbers. The calendar itself is chrono's.

use vstd::prelude::*;

verus! {

/// An instant: whole seconds since 1970-01-01T00:00:00Z and the nanoseconds
/// past them.
#[derive(Clone, Copy, Debug, PartialEq, Eq, Structural)]
pub struct Timestamp {
    pub secs: i64,
    pub nanos: u32,
}

/// The date with the given day number (January 1 of year 1 being day 1) as
/// chrono writes it: `YYYY-MM-DD` for the years 0 to 9999, with a sign and
/// more digits for the year outside them. `None` for a day number outside
/// chrono's range.
pub uninterp spec fn iso_date_text(days_from_ce: int) -> Option<Seq<char>>;

/// The instant that `text` denotes when read as an RFC 3339 date and time by
/// chrono: seconds and nanoseconds as in [`Timestamp`]. `None` where `text` is
/// no such date and time.
pub uninterp spec fn rfc3339_instant(text: Seq<char>) -> Option<(int, int)>;

impl Timestamp {
    /// The instant as a pair of numbers.
    pub open spec fn spec_pair(self) -> (int, int) {
        (self.secs as int, self.nanos as int)
    }
}

/// `chrono::NaiveDate::from_num_days_from_ce_opt` followed by the date's
/// `to_string`: the date of a day number, as chrono writes it.
#[verifier::external_body]
pub(crate) fn iso_date(days_from_ce: i32) -> (r: Option<String>)
    ensures
        r is Some <==> iso_date_text(days_from_ce as int) is Some,
        r matches Some(text) ==> Some(text@) == iso_date_text(days_from_ce as int),
{
    match chrono::NaiveDate::from_num_days_from_ce_opt(days_from_ce) {
        Some(date) => Some(date.to_string()),
        None => None,
    }
}

/// `chrono::DateTime::parse_from_rfc3339`, the result read by `timestamp` and
/// `timestamp_subsec_nanos`: the instant that the text denotes, whatever its
/// offset from UTC.
#[verifier::external_body]
pub(crate) fn parse_rfc3339(text: &str) -> (r: Option<Timestamp>)
    ensures
        r is Some <==> rfc3339_instant(text@) is Some,
        r matches Some(t) ==> Some(t.spec_pair()) == rfc3339_instant(text@),
{
    match chrono::DateTime::parse_from_rfc3339(text) {
        Ok(instant) => Some(
            Timestamp { secs: instant.timestamp(), nanos: instant.timestamp_subsec_nanos() },
        ),
        Err(_) => None,
    }
}

} // verus!
