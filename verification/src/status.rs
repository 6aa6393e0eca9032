//! The exit status of a process that has terminated.

use vstd::prelude::*;

verus! {

/// The exit code that the system reports for a process that has not exited.
///
/// A process may also choose this value as its real exit code; a poll then
/// reads it as "still running". The system offers no way to tell the two
/// apart, and the library does not try to.
pub const STILL_ACTIVE: u32 = 259;

/// The 32-bit code that a process yielded when it terminated.
#[derive(Debug, Clone, Copy, PartialEq, Eq, Structural)]
pub struct ExitStatus(pub u32);

impl ExitStatus {
    /// Success is a zero exit code.
    pub open spec fn is_success(self) -> bool {
        self.0 == 0
    }

    /// Whether the process exited with code zero.
    pub fn success(&self) -> (r: bool)
        ensures
            r == self.is_success(),
            r == (self.0 == 0),
    {
        self.0 == 0
    }

    /// The exit code of the process.
    pub fn code(&self) -> (r: u32)
        ensures
            r == self.0,
    {
        self.0
    }
}

} // verus!
