//! What can go wrong with a child process, each kind with the system's code.

use vstd::prelude::*;

verus! {

/// The error code with which the system refuses a handle that is not open.
pub const ERROR_INVALID_HANDLE: u32 = 6;

/// A failed operation: which one, and the last-error code that the system
/// gave for it.
#[derive(Debug, Clone, Copy, PartialEq, Eq, Structural)]
pub enum Error {
    /// The system refused to create the process.
    CreationFailed(u32),
    /// The blocking wait failed.
    WaitFailed(u32),
    /// The query of the exit code failed.
    GetExitCodeFailed(u32),
    /// The termination request was refused, most often because the process
    /// had already exited.
    KillFailed(u32),
}

impl Error {
    /// The code carried by the error, whatever its kind.
    pub open spec fn spec_code(self) -> u32 {
        match self {
            Error::CreationFailed(code) => code,
            Error::WaitFailed(code) => code,
            Error::GetExitCodeFailed(code) => code,
            Error::KillFailed(code) => code,
        }
    }

    /// The system's last-error code for the failed call.
    pub fn code(&self) -> (r: u32)
        ensures
            r == self.spec_code(),
    {
        match self {
            Error::CreationFailed(code) => *code,
            Error::WaitFailed(code) => *code,
            Error::GetExitCodeFailed(code) => *code,
            Error::KillFailed(code) => *code,
        }
    }
}

} // verus!
