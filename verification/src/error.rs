//! The failures an operation on a stream reports.

use vstd::prelude::*;

verus! {

/// Why an operation failed.
#[derive(Clone, Copy, Debug, PartialEq, Eq, Structural)]
pub enum Error {
    /// The transport failed: no connection, a bad state, a request that was
    /// not acknowledged, or a direction that the stream does not have.
    Generic,
    /// The sample encoding has no equivalent on the wire.
    InvalidFormat,
    /// The negotiated protocol lacks the capability.
    NotSupported,
}

impl Error {
    /// The number under which the host knows this failure.
    pub open spec fn spec_code(self) -> int {
        match self {
            Error::Generic => -1,
            Error::InvalidFormat => -2,
            Error::NotSupported => -4,
        }
    }

    /// The number under which the host knows this failure.
    pub fn code(self) -> (c: i32)
        ensures
            c == self.spec_code(),
    {
        match self {
            Error::Generic => -1,
            Error::InvalidFormat => -2,
            Error::NotSupported => -4,
        }
    }
}

} // verus!
