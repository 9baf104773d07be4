use vstd::prelude::*;

use chrono::Datelike;

verus! {

/// An instant with the UTC offset it was written with.
#[derive(Clone, Copy, Debug, PartialEq, Eq, Structural)]
pub struct Timestamp {
    /// Seconds since 1970-01-01T00:00:00Z.
    pub seconds: i64,
    /// Nanoseconds past `seconds`.
    pub nanos: u32,
    /// The offset east of UTC, in seconds, as written.
    pub offset_seconds: i32,
}

/// A calendar day without time or offset.
#[derive(Clone, Copy, Debug, PartialEq, Eq, Structural)]
pub struct CalendarDate {
    pub year: i32,
    pub month: u32,
    pub day: u32,
}

/// What chrono reads from a timestamp text; `None` where it refuses it.
pub uninterp spec fn timestamp_of(text: Seq<char>) -> Option<Timestamp>;

/// What chrono reads from a date text; `None` where it refuses it.
pub uninterp spec fn date_of(text: Seq<char>) -> Option<CalendarDate>;

/// Relies on chrono's `FromStr` for `DateTime<FixedOffset>` (RFC 3339 with
/// a few relaxations), whose result depends on the text alone.
#[verifier::external_body]
pub fn parse_timestamp(text: &str) -> (r: Option<Timestamp>)
    ensures
        r == timestamp_of(text@),
{
    match text.parse::<chrono::DateTime<chrono::FixedOffset>>() {
        Ok(t) => Some(Timestamp {
            seconds: t.timestamp(),
            nanos: t.timestamp_subsec_nanos(),
            offset_seconds: t.offset().local_minus_utc(),
        }),
        Err(_) => None,
    }
}

/// Relies on chrono's `FromStr` for `NaiveDate` (`YYYY-MM-DD`), whose result
/// depends on the text alone.
#[verifier::external_body]
pub fn parse_date(text: &str) -> (r: Option<CalendarDate>)
    ensures
        r == date_of(text@),
{
    match text.parse::<chrono::NaiveDate>() {
        Ok(d) => Some(CalendarDate { year: d.year(), month: d.month(), day: d.day() }),
        Err(_) => None,
    }
}

} // verus!
