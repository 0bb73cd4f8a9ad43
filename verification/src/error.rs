//! The closed set of failure kinds that fallible operations report.

use vstd::prelude::*;

verus! {

/// A failure reported by an operation on a process, thread or module.
#[derive(Debug)]
pub enum Error {
    /// The platform error code captured right after a failed call.
    Os { code: u32 },
    /// A lookup by executable name found no process of that name.
    NoProcess { name: String },
    /// A supplied name holds an embedded nul value, which the platform's
    /// wide-string representation cannot carry; `pos` is the offset of the
    /// first nul among the encoded units, and `data` the encoded units.
    NulErrorW { pos: usize, data: Vec<u16> },
}

impl Error {
    /// The platform error code, where this failure came from a failed call.
    pub fn os_code(&self) -> (r: Option<u32>)
        ensures
            match *self {
                Error::Os { code } => r == Some(code),
                _ => r is None,
            },
    {
        match self {
            Error::Os { code } => Some(*code),
            _ => None,
        }
    }

    /// Whether this failure is a failed lookup by name.
    pub fn is_no_process(&self) -> (r: bool)
        ensures
            r == (*self is NoProcess),
    {
        match self {
            Error::NoProcess { .. } => true,
            _ => false,
        }
    }
}

/// The result type of every fallible operation of this library.
pub type WinResult<T> = Result<T, Error>;

} // verus!
