//! Windows FILETIME timestamps: a 64-bit count of 100-nanosecond ticks since
//! 1601-01-01T00:00:00Z, with conversions to and from the raw tick count, its
//! 8-byte little-endian encoding, and UTC instants counted from the Unix epoch.
//!
//! A `FileTime` keeps whole seconds and a sub-second part. The sub-second
//! part is held in ticks everywhere; `FileTime::nanoseconds` and the
//! conversions to instants are the places where it is scaled to nanoseconds,
//! and `FileTime::from_datetime` the place where nanoseconds are cut down to
//! ticks.

pub mod bytes;
pub mod calendar;
pub mod error;
pub mod filetime;
pub mod text;
pub mod ticks;

pub use calendar::UtcDateTime;
pub use error::FileTimeError;
pub use filetime::FileTime;
pub use ticks::{FileTimeView, EPOCH_AS_FILETIME, NANOS_PER_TICK, TICKS_PER_SECOND};
