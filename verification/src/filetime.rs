//! The `FileTime` value and its conversions to and from a raw tick count.

use vstd::prelude::*;
use crate::bytes::{i64_from_le_bytes, i64_to_le_bytes, le_bytes, le_signed};
use crate::calendar::{
    plus_nanoseconds, plus_seconds, utc_civil_timestamp, utc_display, utc_display_text, utc_now,
    utc_with_ymd_and_hms, UtcDateTime, FILETIME_EPOCH_TIMESTAMP,
};
use crate::error::FileTimeError;
use crate::text::{compose_text, rendered_text};
use crate::ticks::{
    checked_parts, checked_split, FileTimeView, EPOCH_AS_FILETIME, NANOS_PER_TICK,
    TICKS_PER_SECOND,
};

verus! {

/// A FILETIME timestamp: whole seconds since 1601-01-01T00:00:00Z and a
/// sub-second part in 100-nanosecond ticks.
///
/// Neither part is ever negative. A value made from a tick count has a
/// sub-second part below `TICKS_PER_SECOND`; `new` keeps what it is given.
#[derive(Debug, Clone, Copy, PartialEq, Eq, Structural)]
pub struct FileTime {
    secs: i64,
    ticks: i64,
}

impl View for FileTime {
    type V = FileTimeView;

    closed spec fn view(&self) -> FileTimeView {
        FileTimeView { seconds: self.secs as int, subsec_ticks: self.ticks as int }
    }
}

/// What a result stands for: the parts of the value, or the error.
pub open spec fn parts_of(r: Result<FileTime, FileTimeError>) -> Result<
    FileTimeView,
    FileTimeError,
> {
    match r {
        Ok(ft) => Ok(ft@),
        Err(e) => Err(e),
    }
}

impl FileTime {
    #[verifier::type_invariant]
    spec fn parts_not_negative(self) -> bool {
        self.secs >= 0 && self.ticks >= 0
    }

    /// The single place where a value is made: both parts are stored as
    /// given, unless one of them is negative.
    pub fn new(secs: i64, ticks: i64) -> (r: Result<FileTime, FileTimeError>)
        ensures
            parts_of(r) == checked_parts(secs as int, ticks as int),
    {
        if secs < 0 || ticks < 0 {
            Err(FileTimeError::InvalidArgument)
        } else {
            Ok(FileTime { secs, ticks })
        }
    }

    /// Whole seconds since the FILETIME epoch.
    pub fn seconds(&self) -> (secs: i64)
        ensures
            secs == self@.seconds,
            self@.valid(),
    {
        proof {
            use_type_invariant(self);
        }
        self.secs
    }

    /// The sub-second part in 100-nanosecond ticks.
    pub fn subsecond_ticks(&self) -> (ticks: i64)
        ensures
            ticks == self@.subsec_ticks,
            self@.valid(),
    {
        proof {
            use_type_invariant(self);
        }
        self.ticks
    }

    /// The sub-second part in nanoseconds.
    pub fn nanoseconds(&self) -> (nanos: i64)
        requires
            self@.subsec_nanos() <= i64::MAX,
        ensures
            nanos == self@.subsec_nanos(),
    {
        proof {
            use_type_invariant(self);
        }
        self.ticks * NANOS_PER_TICK
    }

    /// Whether the tick count of the value is one that a signed 64-bit
    /// integer holds, as `filetime` and what builds on it require.
    pub fn fits_i64(&self) -> (fits: bool)
        ensures
            fits == (self@.raw_ticks() <= i64::MAX),
    {
        let whole: i128 = self.secs as i128 * TICKS_PER_SECOND as i128;
        whole + self.ticks as i128 <= i64::MAX as i128
    }

    /// The value as a raw tick count.
    pub fn filetime(&self) -> (raw: i64)
        requires
            self@.raw_ticks() <= i64::MAX,
        ensures
            raw == self@.raw_ticks(),
            raw >= 0,
    {
        proof {
            use_type_invariant(self);
        }
        self.secs * TICKS_PER_SECOND + self.ticks
    }

    /// The value of a raw tick count, which must not be negative.
    pub fn from_i64(filetime: i64) -> (r: Result<FileTime, FileTimeError>)
        ensures
            parts_of(r) == checked_split(filetime as int),
    {
        if filetime < 0 {
            return Err(FileTimeError::InvalidArgument);
        }
        let secs: i64 = filetime / TICKS_PER_SECOND;
        let ticks: i64 = filetime % TICKS_PER_SECOND;
        Self::new(secs, ticks)
    }

    /// The value of the tick count that eight little-endian bytes spell as a
    /// signed 64-bit integer, which must not be negative.
    pub fn from_le_bytes(bytes: [u8; 8]) -> (r: Result<FileTime, FileTimeError>)
        ensures
            parts_of(r) == checked_split(le_signed(bytes@)),
    {
        Self::from_i64(i64_from_le_bytes(bytes))
    }

    /// The raw tick count as eight little-endian bytes.
    pub fn to_le_bytes(&self) -> (bytes: [u8; 8])
        requires
            self@.raw_ticks() <= i64::MAX,
        ensures
            bytes@ == le_bytes(self@.raw_ticks()),
    {
        i64_to_le_bytes(self.filetime())
    }

    /// The value of a UTC instant, which must not lie before the FILETIME
    /// epoch. What the instant holds below a tick is cut off.
    pub fn from_datetime(dt: UtcDateTime) -> (r: Result<FileTime, FileTimeError>)
        requires
            dt.filetime_ticks() <= i64::MAX,
        ensures
            parts_of(r) == checked_split(dt.filetime_ticks()),
    {
        let whole: i128 = dt.timestamp as i128 * TICKS_PER_SECOND as i128;
        let part: i128 = (dt.subsec_nanos as i64 / NANOS_PER_TICK) as i128;
        let ticks: i128 = EPOCH_AS_FILETIME as i128 + whole + part;
        if ticks < 0 {
            Err(FileTimeError::InvalidArgument)
        } else {
            Self::from_i64(ticks as i64)
        }
    }

    /// 1601-01-01T00:00:00Z as the calendar of `chrono` places it.
    ///
    /// The conversions of this type do not rest on this function: they count
    /// from `EPOCH_AS_FILETIME`.
    pub fn filetime_epoch() -> (epoch: UtcDateTime)
        ensures
            epoch.subsec_nanos == 0,
            utc_civil_timestamp(1601, 1, 1, 0, 0, 0) == Some(epoch.timestamp as int),
    {
        utc_with_ymd_and_hms(1601, 1, 1, 0, 0, 0).unwrap()
    }

    /// The value as a UTC instant: the FILETIME epoch, moved on by the whole
    /// seconds and then by the sub-second part in nanoseconds.
    pub fn to_datetime(&self) -> (dt: UtcDateTime)
        requires
            self@.raw_ticks() <= i64::MAX,
        ensures
            dt == UtcDateTime::at_filetime_ticks(self@.raw_ticks()),
    {
        let raw = self.filetime();
        let whole: i64 = raw / TICKS_PER_SECOND;
        let part: i64 = raw % TICKS_PER_SECOND;
        let epoch = UtcDateTime { timestamp: FILETIME_EPOCH_TIMESTAMP, subsec_nanos: 0 };
        let on_the_second = plus_seconds(epoch, whole);
        plus_nanoseconds(on_the_second, part * NANOS_PER_TICK)
    }

    /// The value of a UTC instant, whatever the instant: one that lies
    /// beyond the last FILETIME gives `Overflow`, and any other instant what
    /// `from_datetime` gives.
    pub fn from_datetime_checked(dt: UtcDateTime) -> (r: Result<FileTime, FileTimeError>)
        ensures
            parts_of(r) == if dt.filetime_ticks() > i64::MAX {
                Err::<FileTimeView, FileTimeError>(FileTimeError::Overflow)
            } else {
                checked_split(dt.filetime_ticks())
            },
    {
        if dt.fits_filetime() {
            Self::from_datetime(dt)
        } else {
            Err(FileTimeError::Overflow)
        }
    }

    /// The value of the current instant of the system clock.
    ///
    /// Whatever the clock says, the value is normalized and not before the
    /// Unix epoch; a clock beyond the last FILETIME gives `Overflow`.
    pub fn now() -> (r: Result<FileTime, FileTimeError>)
        ensures
            match r {
                Ok(ft) => ft@.normalized() && EPOCH_AS_FILETIME <= ft@.raw_ticks() <= i64::MAX,
                Err(e) => e == FileTimeError::Overflow,
            },
    {
        Self::from_datetime_checked(utc_now())
    }

    /// One line of text for diagnostics: the instant as `chrono` displays it,
    /// the whole seconds, and the sub-second part in nanoseconds.
    pub fn to_text(&self) -> (text: String)
        requires
            self@.raw_ticks() <= i64::MAX,
        ensures
            text@ == rendered_text(
                utc_display_text(
                    UtcDateTime::at_filetime_ticks(self@.raw_ticks()).timestamp as int,
                    UtcDateTime::at_filetime_ticks(self@.raw_ticks()).subsec_nanos as int,
                ),
                self@.seconds as nat,
                self@.subsec_nanos() as nat,
            ),
    {
        proof {
            use_type_invariant(self);
        }
        let stamp = utc_display(self.to_datetime());
        let per_tick: u128 = NANOS_PER_TICK as u128;
        let nanos: u128 = self.ticks as u128 * per_tick;
        compose_text(stamp.as_str(), self.secs as u128, nanos)
    }
}

/// Two values with the same parts are the same value.
pub proof fn lemma_view_injective(a: FileTime, b: FileTime)
    requires
        a@ == b@,
    ensures
        a == b,
{
}

} // verus!
