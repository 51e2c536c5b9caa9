//! Errors reported by the fence subsystem.
use vstd::prelude::*;

verus! {

/// Why an operation failed.
#[derive(Clone, Copy, Debug, PartialEq, Eq, Structural)]
pub enum Error {
    /// Malformed flags or padding.
    InvalidArgument,
    /// Unknown buffer handle, or unknown or already consumed fence handle.
    NotFound,
    /// A conflicting operation on the buffer is still outstanding.
    Busy,
    /// The fence expired before the client signaled it.
    Timeout,
    /// No memory for a new fence or a reservation entry.
    OutOfMemory,
    /// No free handle is left in a handle table.
    TableExhausted,
}

impl Error {
    /// The negative kernel error number that reports this error.
    pub fn to_errno(&self) -> (r: i32)
        ensures
            r == match *self {
                Error::InvalidArgument => -22i32,
                Error::NotFound => -2i32,
                Error::Busy => -16i32,
                Error::Timeout => -110i32,
                Error::OutOfMemory => -12i32,
                Error::TableExhausted => -16i32,
            },
    {
        match self {
            Error::InvalidArgument => -22,
            Error::NotFound => -2,
            Error::Busy => -16,
            Error::Timeout => -110,
            Error::OutOfMemory => -12,
            Error::TableExhausted => -16,
        }
    }
}

} // verus!
