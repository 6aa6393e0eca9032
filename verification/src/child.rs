//! A child process: its two handles, its identifier, and whether the handles
//! are still open.

use vstd::prelude::*;
use crate::error::{Error, ERROR_INVALID_HANDLE};
use crate::status::{ExitStatus, STILL_ACTIVE};
use crate::system::{
    Created, Handle, Reply, Request, Stage, Step, INFINITE, KILL_EXIT_CODE, WAIT_OBJECT_0,
};

verus! {

/// A running or exited child process.
///
/// The child owns the handles of the process and of its primary thread from
/// its creation until the first step that reports the exit of the process.
/// That step hands both handles out to be closed, and from then on the child
/// is released: it asks nothing more of the system, and every operation on
/// it fails with the error of an invalid handle.
///
/// A child that is never waited for keeps its handles open: to wait is the
/// caller's part.
#[derive(Debug)]
pub struct Child {
    process: Handle,
    thread: Handle,
    process_id: u32,
    released: bool,
}

/// A child as contracts see it.
pub struct ChildView {
    /// The handle of the process.
    pub process: Handle,
    /// The handle of its primary thread.
    pub thread: Handle,
    /// The identifier that the system gave the process at creation.
    pub process_id: u32,
    /// Whether the handles have been handed out to be closed.
    pub released: bool,
}

impl View for Child {
    type V = ChildView;

    closed spec fn view(&self) -> ChildView {
        ChildView {
            process: self.process,
            thread: self.thread,
            process_id: self.process_id,
            released: self.released,
        }
    }
}

impl ChildView {
    /// The child that a creation's answer gives, or the creation's error.
    pub open spec fn created(answer: Created) -> Result<ChildView, Error> {
        if answer.returned != 0 {
            Ok(
                ChildView {
                    process: answer.process,
                    thread: answer.thread,
                    process_id: answer.process_id,
                    released: false,
                },
            )
        } else {
            Err(Error::CreationFailed(answer.last_error))
        }
    }

    /// The request with which an operation begins, at the stage at which its
    /// reply will be read.
    pub open spec fn request(self, stage: Stage) -> Request {
        match stage {
            Stage::Signal => Request::AwaitExit { process: self.process, timeout: INFINITE },
            Stage::ExitCode => Request::QueryExitCode { process: self.process },
            Stage::Poll => Request::QueryExitCode { process: self.process },
            Stage::Termination => Request::Terminate {
                process: self.process,
                exit_code: KILL_EXIT_CODE,
            },
        }
    }

    /// The error of a call that failed at `stage` with `code`.
    pub open spec fn failure(stage: Stage, code: u32) -> Error {
        match stage {
            Stage::Signal => Error::WaitFailed(code),
            Stage::ExitCode => Error::GetExitCodeFailed(code),
            Stage::Poll => Error::GetExitCodeFailed(code),
            Stage::Termination => Error::KillFailed(code),
        }
    }

    /// The first step of an operation whose first request is read at `stage`:
    /// that request while the handles are open, the failure of an invalid
    /// handle once they are released.
    pub open spec fn begin(self, stage: Stage) -> Step {
        if self.released {
            Step::Failed(Self::failure(stage, ERROR_INVALID_HANDLE))
        } else {
            Step::Ask { request: self.request(stage), stage }
        }
    }

    /// Whether the reply read at `stage` says that the call did its work:
    /// the wait, that the process is signalled; every other call, that it
    /// did not return zero.
    pub open spec fn succeeded(stage: Stage, reply: Reply) -> bool {
        match stage {
            Stage::Signal => reply.returned == WAIT_OBJECT_0,
            _ => reply.returned != 0,
        }
    }

    /// Whether the reply read at `stage` reports the exit of the process: a
    /// query that succeeded, and for a poll, an exit code other than the one
    /// that stands for "still running".
    pub open spec fn reports_exit(stage: Stage, reply: Reply) -> bool {
        &&& Self::succeeded(stage, reply)
        &&& stage == Stage::ExitCode || (stage == Stage::Poll && reply.exit_code != STILL_ACTIVE)
    }

    /// The step that follows the reply read at `stage`.
    ///
    /// A released child fails with the code of an invalid handle, and a call
    /// that failed with the reply's last-error code. Otherwise a signalled
    /// wait goes on to query the exit code, a reported exit hands out the
    /// handles with the status, a poll of a process that has not exited says
    /// so, and an accepted termination says so.
    pub open spec fn step(self, stage: Stage, reply: Reply) -> Step {
        if self.released {
            Step::Failed(Self::failure(stage, ERROR_INVALID_HANDLE))
        } else if !Self::succeeded(stage, reply) {
            Step::Failed(Self::failure(stage, reply.last_error))
        } else if Self::reports_exit(stage, reply) {
            Step::Exited {
                status: ExitStatus(reply.exit_code),
                process: self.process,
                thread: self.thread,
            }
        } else {
            match stage {
                Stage::Signal => self.begin(Stage::ExitCode),
                Stage::Termination => Step::Killed,
                _ => Step::Running,
            }
        }
    }

    /// The child after the reply read at `stage`: released by the step that
    /// reports the exit, unchanged by every other.
    pub open spec fn after(self, stage: Stage, reply: Reply) -> ChildView {
        if !self.released && Self::reports_exit(stage, reply) {
            ChildView { released: true, ..self }
        } else {
            self
        }
    }
}

impl Child {
    /// The child of a creation, from the system's answer to it.
    ///
    /// Where the call returned nonzero the child owns the two handles of the
    /// answer; where it returned zero nothing is held, and the error carries
    /// the answer's last-error code.
    pub(crate) fn new(answer: Created) -> (result: Result<Child, Error>)
        ensures
            result is Ok <==> answer.returned != 0,
            match result {
                Ok(child) => ChildView::created(answer) == Ok::<ChildView, Error>(child@),
                Err(error) => ChildView::created(answer) == Err::<ChildView, Error>(error),
            },
    {
        if answer.returned != 0 {
            Ok(
                Child {
                    process: answer.process,
                    thread: answer.thread,
                    process_id: answer.process_id,
                    released: false,
                },
            )
        } else {
            Err(Error::CreationFailed(answer.last_error))
        }
    }

    /// Begins to wait for the process to exit: asks for a blocking wait on
    /// the process handle, with no deadline.
    ///
    /// On a released child nothing is asked: the step is `WaitFailed` with
    /// the code of an invalid handle.
    pub fn wait(&self) -> (step: Step)
        ensures
            !self@.released ==> step == (Step::Ask {
                request: Request::AwaitExit { process: self@.process, timeout: INFINITE },
                stage: Stage::Signal,
            }),
            self@.released ==> step == Step::Failed(Error::WaitFailed(ERROR_INVALID_HANDLE)),
            step == self@.begin(Stage::Signal),
    {
        self.begin(Stage::Signal)
    }

    /// Begins to poll the process: asks for its exit code, without blocking.
    ///
    /// On a released child nothing is asked: the step is `GetExitCodeFailed`
    /// with the code of an invalid handle.
    pub fn try_wait(&self) -> (step: Step)
        ensures
            !self@.released ==> step == (Step::Ask {
                request: Request::QueryExitCode { process: self@.process },
                stage: Stage::Poll,
            }),
            self@.released ==> step == Step::Failed(
                Error::GetExitCodeFailed(ERROR_INVALID_HANDLE),
            ),
            step == self@.begin(Stage::Poll),
    {
        self.begin(Stage::Poll)
    }

    /// Begins to kill the process: asks for its termination, with exit code
    /// zero. The handles stay open whatever the answer: the process is still
    /// to be waited for.
    ///
    /// On a released child nothing is asked: the step is `KillFailed` with
    /// the code of an invalid handle.
    pub fn kill(&self) -> (step: Step)
        ensures
            !self@.released ==> step == (Step::Ask {
                request: Request::Terminate { process: self@.process, exit_code: KILL_EXIT_CODE },
                stage: Stage::Termination,
            }),
            self@.released ==> step == Step::Failed(Error::KillFailed(ERROR_INVALID_HANDLE)),
            step == self@.begin(Stage::Termination),
    {
        self.begin(Stage::Termination)
    }

    /// Reads the reply to the request that was asked at `stage`, and says
    /// what comes next.
    ///
    /// The step that reports the exit releases the child; no other step
    /// changes it.
    pub fn resume(&mut self, stage: Stage, reply: Reply) -> (step: Step)
        ensures
            step == old(self)@.step(stage, reply),
            final(self)@ == old(self)@.after(stage, reply),
    {
        if self.released {
            return Step::Failed(Self::failure(stage, ERROR_INVALID_HANDLE));
        }
        match stage {
            Stage::Signal => {
                if reply.returned == WAIT_OBJECT_0 {
                    self.begin(Stage::ExitCode)
                } else {
                    Step::Failed(Error::WaitFailed(reply.last_error))
                }
            },
            Stage::ExitCode => {
                if reply.returned != 0 {
                    self.release(reply.exit_code)
                } else {
                    Step::Failed(Error::GetExitCodeFailed(reply.last_error))
                }
            },
            Stage::Poll => {
                if reply.returned == 0 {
                    Step::Failed(Error::GetExitCodeFailed(reply.last_error))
                } else if reply.exit_code == STILL_ACTIVE {
                    Step::Running
                } else {
                    self.release(reply.exit_code)
                }
            },
            Stage::Termination => {
                if reply.returned != 0 {
                    Step::Killed
                } else {
                    Step::Failed(Error::KillFailed(reply.last_error))
                }
            },
        }
    }

    /// The identifier that the system gave the process at creation. It is
    /// kept by the child, so it can be read after the release too.
    pub fn id(&self) -> (id: u32)
        ensures
            id == self@.process_id,
    {
        self.process_id
    }

    /// The one place where the handles leave the child.
    fn release(&mut self, exit_code: u32) -> (step: Step)
        requires
            !old(self)@.released,
        ensures
            step == (Step::Exited {
                status: ExitStatus(exit_code),
                process: old(self)@.process,
                thread: old(self)@.thread,
            }),
            final(self)@ == (ChildView { released: true, ..old(self)@ }),
    {
        self.released = true;
        Step::Exited { status: ExitStatus(exit_code), process: self.process, thread: self.thread }
    }

    fn begin(&self, stage: Stage) -> (step: Step)
        ensures
            step == self@.begin(stage),
    {
        if self.released {
            Step::Failed(Self::failure(stage, ERROR_INVALID_HANDLE))
        } else {
            let request = match stage {
                Stage::Signal => Request::AwaitExit { process: self.process, timeout: INFINITE },
                Stage::ExitCode => Request::QueryExitCode { process: self.process },
                Stage::Poll => Request::QueryExitCode { process: self.process },
                Stage::Termination => Request::Terminate {
                    process: self.process,
                    exit_code: KILL_EXIT_CODE,
                },
            };
            Step::Ask { request, stage }
        }
    }

    fn failure(stage: Stage, code: u32) -> (error: Error)
        ensures
            error == ChildView::failure(stage, code),
    {
        match stage {
            Stage::Signal => Error::WaitFailed(code),
            Stage::ExitCode => Error::GetExitCodeFailed(code),
            Stage::Poll => Error::GetExitCodeFailed(code),
            Stage::Termination => Error::KillFailed(code),
        }
    }
}

} // verus!
