//! Error taxonomy of the serial primitives.

use vstd::prelude::*;

verus! {

/// Why a collision-sensing write failed.
#[derive(Debug, Clone, Copy, PartialEq, Eq, Structural)]
#[non_exhaustive]
pub enum WriteError {
    /// The peripheral reported a protocol error, or the echo never came back.
    FramingError,
    /// The echo differed from what was sent, or the echo read itself failed.
    CollisionError,
}

/// Why an idle-delimited read failed.
#[derive(Debug, Clone, Copy, PartialEq, Eq, Structural)]
#[non_exhaustive]
pub enum ReadError {
    /// The peripheral reported a protocol error.
    FramingError,
    /// The inbound frame did not fit the slot it was read into.
    OverflowError,
}

} // verus!
