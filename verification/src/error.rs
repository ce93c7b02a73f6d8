//! The ways in which building a `FileTime` can fail.

use vstd::prelude::*;

verus! {

/// Why a value was refused.
#[derive(Debug, Clone, Copy, PartialEq, Eq, Structural)]
pub enum FileTimeError {
    /// A negative number of seconds, a negative sub-second part, or a
    /// negative tick count: FILETIME has no instants before its epoch.
    InvalidArgument,
    /// The instant lies beyond the last one that a signed 64-bit tick count
    /// reaches.
    Overflow,
}

} // verus!
