//! UTC instants counted from the Unix epoch, how they correspond to FILETIME
//! tick counts, and the calendar work that `chrono` does for this crate.

use chrono::{DateTime, Duration, LocalResult, TimeZone, Utc};
use vstd::prelude::*;
use crate::error::FileTimeError;
use crate::ticks::{
    checked_split, FileTimeView, EPOCH_AS_FILETIME, NANOS_PER_TICK, TICKS_PER_SECOND,
};

verus! {

/// The number of nanoseconds in one second.
pub const NANOS_PER_SECOND: u32 = 1_000_000_000;

/// Every instant that is at most this many seconds away from the Unix epoch
/// is one that `chrono::DateTime<Utc>` holds: it holds the years from
/// -262143 to 262142, and this span is shorter than 253 700 years.
pub const CALENDAR_SPAN: i64 = 8_000_000_000_000;

/// The FILETIME epoch, 1601-01-01T00:00:00Z, in seconds since the Unix
/// epoch: `EPOCH_AS_FILETIME` ticks before it.
pub const FILETIME_EPOCH_TIMESTAMP: i64 = -11_644_473_600;

/// A UTC instant as `chrono::DateTime<Utc>` reports it: `timestamp` is the
/// number of non-leap seconds since 1970-01-01T00:00:00Z, `subsec_nanos` the
/// nanoseconds since the last whole second.
#[derive(Debug, Clone, Copy, PartialEq, Eq, Structural)]
pub struct UtcDateTime {
    pub timestamp: i64,
    pub subsec_nanos: u32,
}

impl UtcDateTime {
    /// The nanoseconds since the Unix epoch.
    pub open spec fn unix_nanos(self) -> int {
        self.timestamp * NANOS_PER_SECOND + self.subsec_nanos
    }

    /// The instant as a count of ticks since the FILETIME epoch. What is
    /// finer than a tick is cut off.
    pub open spec fn filetime_ticks(self) -> int {
        EPOCH_AS_FILETIME + self.timestamp * TICKS_PER_SECOND + self.subsec_nanos as int / (
        NANOS_PER_TICK as int)
    }

    /// The instant that lies `ticks` ticks after the FILETIME epoch.
    pub open spec fn at_filetime_ticks(ticks: int) -> UtcDateTime {
        let since_unix = ticks - EPOCH_AS_FILETIME;
        UtcDateTime {
            timestamp: (since_unix / (TICKS_PER_SECOND as int)) as i64,
            subsec_nanos: (since_unix % (TICKS_PER_SECOND as int) * NANOS_PER_TICK) as u32,
        }
    }

    /// The instant with what is finer than a tick cut off.
    pub open spec fn whole_ticks(self) -> UtcDateTime {
        UtcDateTime {
            timestamp: self.timestamp,
            subsec_nanos: (self.subsec_nanos as int / (NANOS_PER_TICK as int) * NANOS_PER_TICK) as u32,
        }
    }

    /// Whether the tick count of the instant is no more than a signed 64-bit
    /// integer holds.
    pub fn fits_filetime(&self) -> (fits: bool)
        ensures
            fits == (self.filetime_ticks() <= i64::MAX),
    {
        let whole: i128 = self.timestamp as i128 * TICKS_PER_SECOND as i128;
        let part: i128 = (self.subsec_nanos as i64 / NANOS_PER_TICK) as i128;
        EPOCH_AS_FILETIME as i128 + whole + part <= i64::MAX as i128
    }
}

/// Whether `chrono::DateTime<Utc>` is sure to hold the instants of the
/// second with this timestamp.
pub open spec fn in_calendar(timestamp: int) -> bool {
    -CALENDAR_SPAN <= timestamp <= CALENDAR_SPAN
}

/// Date and time fields that exist in every month of every year that
/// `chrono` has.
pub open spec fn is_everyday_civil(
    year: int,
    month: int,
    day: int,
    hour: int,
    min: int,
    sec: int,
) -> bool {
    &&& -262_143 <= year <= 262_142
    &&& 1 <= month <= 12
    &&& 1 <= day <= 28
    &&& 0 <= hour <= 23
    &&& 0 <= min <= 59
    &&& 0 <= sec <= 59
}

/// The timestamp that `chrono` gives to a date and time of the proleptic
/// Gregorian calendar in UTC, where it has that date and time.
pub uninterp spec fn utc_civil_timestamp(
    year: int,
    month: int,
    day: int,
    hour: int,
    min: int,
    sec: int,
) -> Option<int>;

/// The text that `chrono` displays for the UTC instant with this timestamp
/// and these nanoseconds.
pub uninterp spec fn utc_display_text(timestamp: int, subsec_nanos: int) -> Seq<char>;

/// `chrono::Utc::now`, read off as timestamp and nanoseconds.
///
/// Whatever the clock says, `chrono` hands out no instant before the Unix
/// epoch (it fails on such a clock) and builds the nanoseconds from a
/// `std::time::Duration`, whose sub-second part is below one second.
#[verifier::external_body]
pub(crate) fn utc_now() -> (now: UtcDateTime)
    ensures
        now.timestamp >= 0,
        now.subsec_nanos < NANOS_PER_SECOND,
{
    let now = Utc::now();
    UtcDateTime { timestamp: now.timestamp(), subsec_nanos: now.timestamp_subsec_nanos() }
}

/// `chrono::TimeZone::with_ymd_and_hms` on `Utc`.
///
/// `chrono` answers with a single instant or with none; the instant falls on
/// a whole second. It has an instant for every month from 1 to 12 and every
/// day from 1 to 28 in the years it holds, at every hour, minute and second
/// of the day.
#[verifier::external_body]
pub(crate) fn utc_with_ymd_and_hms(
    year: i32,
    month: u32,
    day: u32,
    hour: u32,
    min: u32,
    sec: u32,
) -> (found: Option<UtcDateTime>)
    ensures
        is_everyday_civil(year as int, month as int, day as int, hour as int, min as int, sec as int)
            ==> found is Some,
        match found {
            Some(dt) => dt.subsec_nanos == 0 && utc_civil_timestamp(
                year as int,
                month as int,
                day as int,
                hour as int,
                min as int,
                sec as int,
            ) == Some(dt.timestamp as int),
            None => utc_civil_timestamp(
                year as int,
                month as int,
                day as int,
                hour as int,
                min as int,
                sec as int,
            ) is None,
        },
{
    match Utc.with_ymd_and_hms(year, month, day, hour, min, sec) {
        LocalResult::Single(dt) => Some(
            UtcDateTime { timestamp: dt.timestamp(), subsec_nanos: dt.timestamp_subsec_nanos() },
        ),
        LocalResult::Ambiguous(_, _) => None,
        LocalResult::None => None,
    }
}

/// `DateTime<Utc> + Duration::seconds(secs)`.
///
/// `chrono` adds whole seconds to the timestamp and leaves the nanoseconds
/// alone. It fails where the sum is an instant it does not hold, which the
/// `requires` leaves out.
#[verifier::external_body]
pub(crate) fn plus_seconds(start: UtcDateTime, secs: i64) -> (end: UtcDateTime)
    requires
        start.subsec_nanos < NANOS_PER_SECOND,
        in_calendar(start.timestamp as int),
        in_calendar(start.timestamp + secs),
    ensures
        end.timestamp == start.timestamp + secs,
        end.subsec_nanos == start.subsec_nanos,
{
    let start = DateTime::<Utc>::from_timestamp(start.timestamp, start.subsec_nanos).unwrap();
    let end = start + Duration::seconds(secs);
    UtcDateTime { timestamp: end.timestamp(), subsec_nanos: end.timestamp_subsec_nanos() }
}

/// `DateTime<Utc> + Duration::nanoseconds(nanos)`.
///
/// `chrono` moves the instant by that many nanoseconds and carries whole
/// seconds into the timestamp. It fails where the sum is an instant it does
/// not hold, which the `requires` leaves out.
#[verifier::external_body]
pub(crate) fn plus_nanoseconds(start: UtcDateTime, nanos: i64) -> (end: UtcDateTime)
    requires
        start.subsec_nanos < NANOS_PER_SECOND,
        in_calendar(start.timestamp as int),
        in_calendar((start.unix_nanos() + nanos) / (NANOS_PER_SECOND as int)),
    ensures
        end.subsec_nanos < NANOS_PER_SECOND,
        end.unix_nanos() == start.unix_nanos() + nanos,
{
    let start = DateTime::<Utc>::from_timestamp(start.timestamp, start.subsec_nanos).unwrap();
    let end = start + Duration::nanoseconds(nanos);
    UtcDateTime { timestamp: end.timestamp(), subsec_nanos: end.timestamp_subsec_nanos() }
}

/// `DateTime<Utc>` shown through its `Display`.
#[verifier::external_body]
pub(crate) fn utc_display(dt: UtcDateTime) -> (text: String)
    requires
        dt.subsec_nanos < NANOS_PER_SECOND,
        in_calendar(dt.timestamp as int),
    ensures
        text@ == utc_display_text(dt.timestamp as int, dt.subsec_nanos as int),
{
    DateTime::<Utc>::from_timestamp(dt.timestamp, dt.subsec_nanos).unwrap().to_string()
}

/// A tick count that fits 64 bits names an instant with less than a second
/// of nanoseconds, and that instant has the same tick count.
pub proof fn lemma_ticks_to_instant_and_back(ticks: int)
    requires
        0 <= ticks <= i64::MAX,
    ensures
        UtcDateTime::at_filetime_ticks(ticks).subsec_nanos < NANOS_PER_SECOND,
        UtcDateTime::at_filetime_ticks(ticks).unix_nanos() == (ticks - EPOCH_AS_FILETIME)
            * NANOS_PER_TICK,
        UtcDateTime::at_filetime_ticks(ticks).filetime_ticks() == ticks,
{
}

/// An instant whose tick count fits 64 bits is, up to what is finer than a
/// tick, the instant that its tick count names.
pub proof fn lemma_instant_to_ticks_and_back(dt: UtcDateTime)
    requires
        dt.subsec_nanos < NANOS_PER_SECOND,
        0 <= dt.filetime_ticks() <= i64::MAX,
    ensures
        UtcDateTime::at_filetime_ticks(dt.filetime_ticks()) == dt.whole_ticks(),
{
}

/// Normalized parts whose tick count fits 64 bits come back from the instant
/// that they name.
pub proof fn lemma_parts_to_instant_and_back(parts: FileTimeView)
    requires
        parts.normalized(),
        parts.raw_ticks() <= i64::MAX,
    ensures
        checked_split(UtcDateTime::at_filetime_ticks(parts.raw_ticks()).filetime_ticks()) == Ok::<
            FileTimeView,
            FileTimeError,
        >(parts),
{
    lemma_ticks_to_instant_and_back(parts.raw_ticks());
}

} // verus!
