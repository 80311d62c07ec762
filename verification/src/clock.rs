//! Instants, calendar days and local time.
//!
//! An instant is a count of seconds since 1970-01-01 00:00 UTC, leap seconds
//! not counted. The rules of the time zones are those of the `chrono-tz`
//! crate.
use vstd::prelude::*;

verus! {

/// The seconds in a day.
pub const DAY: i64 = 86_400;

/// The number of the calendar day in UTC that an instant falls on, counted
/// from 1970-01-01.
pub open spec fn spec_day_of(seconds: int) -> int {
    seconds / (DAY as int)
}

/// The number of the calendar day in UTC that an instant falls on, counted
/// from 1970-01-01.
pub fn day_of(seconds: i64) -> (r: i64)
    ensures
        r == spec_day_of(seconds as int),
{
    match seconds.checked_div_euclid(DAY) {
        Some(d) => d,
        None => 0,
    }
}

/// The seconds by which the clocks of the zone called `zone` are ahead of
/// UTC at the instant `seconds`; `None` for a name that is not a zone's, and
/// for an instant outside the years that a calendar date can hold.
pub uninterp spec fn utc_offset_at(zone: Seq<char>, seconds: int) -> Option<int>;

/// An instant together with the offset of the local clocks at that instant.
#[derive(Debug, Clone, Copy, PartialEq, Eq, Structural)]
pub struct LocalDateTime {
    /// The instant, in seconds since 1970-01-01 00:00 UTC.
    pub utc_seconds: i64,
    /// The seconds by which the local clocks are ahead of UTC.
    pub offset_seconds: i32,
}

/// Looks the zone up with `chrono_tz::Tz::from_str`, makes the instant with
/// `chrono::DateTime::from_timestamp`, moves it into the zone with
/// `DateTime::with_timezone`, and reads the offset with `Offset::fix` and
/// `FixedOffset::local_minus_utc`. The contract gives the offset the name
/// [`utc_offset_at`]: it depends on the zone's name and the instant alone,
/// through the table of zones that `chrono-tz` is built with.
#[verifier::external_body]
pub(crate) fn utc_offset(zone: &str, seconds: i64) -> (r: Option<i32>)
    ensures
        r is Some <==> utc_offset_at(zone@, seconds as int) is Some,
        r matches Some(o) ==> utc_offset_at(zone@, seconds as int) == Some(o as int),
{
    let tz: chrono_tz::Tz = core::str::FromStr::from_str(zone).ok()?;
    let utc = chrono::DateTime::from_timestamp(seconds, 0)?;
    Some(chrono::Offset::fix(utc.with_timezone(&tz).offset()).local_minus_utc())
}

/// The local time of the zone called `zone` at an instant, as the instant
/// with the zone's offset.
pub open spec fn spec_local_time(zone: Seq<char>, seconds: i64) -> Option<LocalDateTime> {
    match utc_offset_at(zone, seconds as int) {
        Some(o) => Some(LocalDateTime { utc_seconds: seconds, offset_seconds: o as i32 }),
        None => None,
    }
}

/// The local time of the zone called `zone` at an instant; absent where the
/// zone is not known or the instant is out of range.
pub fn local_time(zone: &str, seconds: i64) -> (r: Option<LocalDateTime>)
    ensures
        r == spec_local_time(zone@, seconds),
{
    match utc_offset(zone, seconds) {
        Some(offset_seconds) => Some(LocalDateTime { utc_seconds: seconds, offset_seconds }),
        None => None,
    }
}

/// The calendar day in UTC that an instant falls on, written as year, month
/// and day with hyphens between them; `None` for an instant outside the
/// years that a calendar date can hold.
pub uninterp spec fn calendar_day(seconds: int) -> Option<Seq<char>>;

/// Makes the instant with `chrono::DateTime::from_timestamp` and writes its
/// day with `DateTime::format` and the pattern `%Y-%m-%d`. The contract gives
/// the text the name [`calendar_day`]: it depends on the instant alone.
#[verifier::external_body]
pub(crate) fn day_text(seconds: i64) -> (r: Option<String>)
    ensures
        r is Some <==> calendar_day(seconds as int) is Some,
        r matches Some(s) ==> calendar_day(seconds as int) == Some(s@),
{
    let utc = chrono::DateTime::from_timestamp(seconds, 0)?;
    Some(utc.format("%Y-%m-%d").to_string())
}

} // verus!
