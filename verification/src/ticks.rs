//! The arithmetic of tick counts: a count of ticks is split into whole
//! seconds and a sub-second remainder, and put together again.

use vstd::prelude::*;
use crate::error::FileTimeError;

verus! {

/// The number of 100-nanosecond ticks in one second.
pub const TICKS_PER_SECOND: i64 = 10_000_000;

/// The number of nanoseconds in one tick.
pub const NANOS_PER_TICK: i64 = 100;

/// The Unix epoch, 1970-01-01T00:00:00Z, as a FILETIME tick count.
pub const EPOCH_AS_FILETIME: i64 = 116_444_736_000_000_000;

/// What a `FileTime` stands for: whole seconds since the FILETIME epoch and
/// a sub-second part in ticks.
pub struct FileTimeView {
    pub seconds: int,
    pub subsec_ticks: int,
}

impl FileTimeView {
    /// Neither part is negative.
    pub open spec fn valid(self) -> bool {
        self.seconds >= 0 && self.subsec_ticks >= 0
    }

    /// Valid, and the sub-second part is less than one second.
    pub open spec fn normalized(self) -> bool {
        self.valid() && self.subsec_ticks < TICKS_PER_SECOND
    }

    /// The ticks since the FILETIME epoch.
    pub open spec fn raw_ticks(self) -> int {
        self.seconds * TICKS_PER_SECOND + self.subsec_ticks
    }

    /// The sub-second part in nanoseconds.
    pub open spec fn subsec_nanos(self) -> int {
        self.subsec_ticks * NANOS_PER_TICK
    }
}

/// A tick count as whole seconds and the ticks that remain.
pub open spec fn split_ticks(ticks: int) -> FileTimeView {
    FileTimeView {
        seconds: ticks / (TICKS_PER_SECOND as int),
        subsec_ticks: ticks % (TICKS_PER_SECOND as int),
    }
}

/// The two parts as given, or the refusal of a negative one.
pub open spec fn checked_parts(seconds: int, subsec_ticks: int) -> Result<
    FileTimeView,
    FileTimeError,
> {
    if seconds < 0 || subsec_ticks < 0 {
        Err(FileTimeError::InvalidArgument)
    } else {
        Ok(FileTimeView { seconds, subsec_ticks })
    }
}

/// The parts of a tick count, or the refusal of a negative one.
pub open spec fn checked_split(ticks: int) -> Result<FileTimeView, FileTimeError> {
    if ticks < 0 {
        Err(FileTimeError::InvalidArgument)
    } else {
        Ok(split_ticks(ticks))
    }
}

/// A tick count that is not negative is never refused; splitting it and
/// counting the ticks of the two parts gives the count back, and the parts
/// are normalized.
pub proof fn lemma_split_then_join(ticks: int)
    requires
        ticks >= 0,
    ensures
        checked_split(ticks) == Ok::<FileTimeView, FileTimeError>(split_ticks(ticks)),
        split_ticks(ticks).normalized(),
        split_ticks(ticks).raw_ticks() == ticks,
{
}

/// Counting the ticks of normalized parts and splitting the count gives
/// the parts back.
pub proof fn lemma_join_then_split(parts: FileTimeView)
    requires
        parts.normalized(),
    ensures
        split_ticks(parts.raw_ticks()) == parts,
{
}

} // verus!
