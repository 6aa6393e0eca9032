//! The lifecycle of one child process on Windows, as a state machine.
//!
//! The library decides and never calls the system itself. A [`Command`]
//! turns its configuration into the arguments of one creation call, and the
//! system's answer into a [`Child`]. A child turns each of `wait`, `try_wait`
//! and `kill` into a [`Step`]: a [`Request`] to perform, whose [`Reply`] goes
//! back to [`Child::resume`], or the end of the operation. Whoever drives a
//! child performs its requests, and closes its two handles when a step hands
//! them out; the library sees to it that this happens once at most.

pub mod child;
pub mod command;
pub mod error;
pub mod laws;
pub mod status;
pub mod system;
pub mod wide;

pub use child::{Child, ChildView};
pub use command::{Command, CommandView, Creation};
pub use error::Error;
pub use status::ExitStatus;
pub use system::{Created, Handle, Reply, Request, Stage, Step};
