//! What passes between the library and whoever talks to the system for it.
//!
//! The library asks with a [`Request`] and is answered with a [`Reply`]; a
//! creation is answered with a [`Created`]. All of them are plain values:
//! a driver fills them from what the system's calls gave, one for one, and
//! reads the thread's last-error code right after each call, before anything
//! else can overwrite it.

use vstd::prelude::*;
use crate::error::Error;
use crate::status::ExitStatus;

verus! {

/// What the blocking wait returns when the object it waited for is signalled.
pub const WAIT_OBJECT_0: u32 = 0;

/// The timeout that stands for "no deadline".
pub const INFINITE: u32 = 0xFFFF_FFFF;

/// The exit code that a forced termination gives the process.
pub const KILL_EXIT_CODE: u32 = 0;

/// An opaque handle of the system, by its bits.
#[derive(Debug, Clone, Copy, PartialEq, Eq, Structural)]
pub struct Handle(pub usize);

/// The system's answer to a creation call.
#[derive(Debug, Clone, Copy, PartialEq, Eq, Structural)]
pub struct Created {
    /// What the call returned: zero where it failed.
    pub returned: u32,
    /// The handle of the new process.
    pub process: Handle,
    /// The handle of its primary thread.
    pub thread: Handle,
    /// The identifier of the new process.
    pub process_id: u32,
    /// The thread's last-error code right after the call.
    pub last_error: u32,
}

/// One call that a child asks of the system.
#[derive(Debug, Clone, Copy, PartialEq, Eq, Structural)]
pub enum Request {
    /// Block until the process is signalled or `timeout` milliseconds are
    /// over; the reply's `returned` is what the wait returned.
    AwaitExit { process: Handle, timeout: u32 },
    /// Query the exit code of the process without blocking; the reply's
    /// `returned` is zero where the query failed, and its `exit_code` is what
    /// the query stored.
    QueryExitCode { process: Handle },
    /// Terminate the process with `exit_code`; the reply's `returned` is zero
    /// where the system refused.
    Terminate { process: Handle, exit_code: u32 },
}

/// The system's answer to a [`Request`].
#[derive(Debug, Clone, Copy, PartialEq, Eq, Structural)]
pub struct Reply {
    /// What the call returned.
    pub returned: u32,
    /// What the call stored as the exit code, where it stores one.
    pub exit_code: u32,
    /// The thread's last-error code right after the call.
    pub last_error: u32,
}

/// What the reply to a request will be read as.
#[derive(Debug, Clone, Copy, PartialEq, Eq, Structural)]
pub enum Stage {
    /// The blocking wait of `wait`.
    Signal,
    /// The exit-code query of `wait`, made once the process is signalled.
    ExitCode,
    /// The exit-code query of `try_wait`.
    Poll,
    /// The termination request of `kill`.
    Termination,
}

/// What an operation on a child comes to next.
#[derive(Debug, Clone, Copy, PartialEq, Eq, Structural)]
pub enum Step {
    /// Perform `request`, then hand its reply and `stage` to `resume`.
    Ask { request: Request, stage: Stage },
    /// The process has exited with `status` and the child has let go of its
    /// two handles: close both. The operation is over.
    Exited { status: ExitStatus, process: Handle, thread: Handle },
    /// The process has not exited yet. The operation is over.
    Running,
    /// The system has accepted the termination request. The operation is
    /// over; the process is still to be waited for.
    Killed,
    /// The operation has failed.
    Failed(Error),
}

} // verus!
