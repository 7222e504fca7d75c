//! Calendar dates at an offset from UTC.
//!
//! The calendar is the `time` crate's. Verus does not see it: the name
//! [`date_at_offset`] and the function `offset_date` state what this crate
//! relies on.

use vstd::prelude::*;

verus! {

/// The calendar date, as year, month and day, of the instant `unix_seconds`
/// after the Unix epoch, seen at `offset_hours` whole hours from UTC, as the
/// `time` crate computes it. `None` where the crate rejects the instant, the
/// offset or the resulting date.
pub uninterp spec fn date_at_offset(unix_seconds: i64, offset_hours: i8) -> Option<(i32, u8, u8)>;

/// The first second of the year -9999, in seconds after the Unix epoch.
pub const FIRST_INSTANT: i64 = -377_705_116_800;

/// The last second of the year 9999, in seconds after the Unix epoch.
pub const LAST_INSTANT: i64 = 253_402_300_799;

/// Whether `unix_seconds` lies in the years -9999 to 9999 of the calendar,
/// which the `time` crate holds whatever its features.
pub open spec fn in_calendar(unix_seconds: i64) -> bool {
    FIRST_INSTANT <= unix_seconds <= LAST_INSTANT
}

/// Calls `time::OffsetDateTime::checked_to_offset` and returns the calendar
/// date of what it gives. Its arguments are made of the two numbers by
/// `time::OffsetDateTime::from_unix_timestamp` and by `time::UtcOffset::from_hms`
/// with no minutes and seconds; where either refuses its number, there is no
/// date. The contract claims three things. The outcome is a function of the
/// two numbers alone, named [`date_at_offset`]. An offset of more than 25
/// hours either way gives no date, 25 being the bound that `from_hms` puts on
/// hours. With no offset, every instant of the years -9999 to 9999 has a date:
/// `from_unix_timestamp` accepts the instants of these years, and
/// `checked_to_offset` hands a date-time back as it is where the offset is the
/// one it has.
#[verifier::external_body]
fn offset_date(unix_seconds: i64, offset_hours: i8) -> (date: Option<(i32, u8, u8)>)
    ensures
        date == date_at_offset(unix_seconds, offset_hours),
        !(-25 <= offset_hours <= 25) ==> date is None,
        offset_hours == 0 && in_calendar(unix_seconds) ==> date is Some,
{
    let utc = time::OffsetDateTime::from_unix_timestamp(unix_seconds).ok()?;
    let offset = time::UtcOffset::from_hms(offset_hours, 0, 0).ok()?;
    let date = utc.checked_to_offset(offset)?.date();
    Some((date.year(), u8::from(date.month()), date.day()))
}

/// A calendar date.
#[derive(Debug, Clone, Copy, PartialEq, Eq)]
pub struct Date {
    pub year: i32,
    /// From 1 for January to 12 for December.
    pub month: u8,
    pub day: u8,
}

/// The date of the instant `unix_seconds` at `offset` hours from UTC; no
/// offset is UTC. `None` where the offset is no valid offset of a time zone,
/// or the date is out of the calendar's range.
pub open spec fn date_on(unix_seconds: i64, offset: Option<i64>) -> Option<Date> {
    let hours = match offset {
        Some(hours) => hours,
        None => 0,
    };
    if -128 <= hours <= 127 {
        match date_at_offset(unix_seconds, hours as i8) {
            Some((year, month, day)) => Some(Date { year, month, day }),
            None => None,
        }
    } else {
        None
    }
}

/// Whether `hours` can be the offset of a time zone, in whole hours.
pub open spec fn valid_offset(hours: i64) -> bool {
    -25 <= hours <= 25
}

/// Computes the date of the instant `unix_seconds` at `offset` hours from UTC.
pub fn date_of(unix_seconds: i64, offset: Option<i64>) -> (date: Option<Date>)
    ensures
        date == date_on(unix_seconds, offset),
        offset matches Some(hours) && !valid_offset(hours) ==> date is None,
        (offset is None || offset == Some(0i64)) && in_calendar(unix_seconds) ==> date is Some,
{
    let hours = match offset {
        Some(hours) => hours,
        None => 0,
    };
    if hours < -128 || hours > 127 {
        return None;
    }
    match offset_date(unix_seconds, hours as i8) {
        Some((year, month, day)) => Some(Date { year, month, day }),
        None => None,
    }
}

} // verus!
