//! What holds of every child, whatever the system answers.

use vstd::prelude::*;
use crate::child::ChildView;
use crate::command::{CommandView, Creation};
use crate::error::{Error, ERROR_INVALID_HANDLE};
use crate::status::{ExitStatus, STILL_ACTIVE};
use crate::system::{
    Created, Reply, Request, Stage, Step, INFINITE, KILL_EXIT_CODE, WAIT_OBJECT_0,
};
use crate::wide::{wide, wide_is_injective};

verus! {

/// The child after a run of replies, each read at its stage, in order.
pub open spec fn run(child: ChildView, events: Seq<(Stage, Reply)>) -> ChildView
    decreases events.len(),
{
    if events.len() == 0 {
        child
    } else {
        run(child, events.drop_last()).after(events.last().0, events.last().1)
    }
}

/// The number of steps of a run that hand the handles out to be closed.
pub open spec fn releases(child: ChildView, events: Seq<(Stage, Reply)>) -> nat
    decreases events.len(),
{
    if events.len() == 0 {
        0
    } else {
        let before = run(child, events.drop_last());
        let last = if before.step(events.last().0, events.last().1) is Exited {
            1nat
        } else {
            0nat
        };
        releases(child, events.drop_last()) + last
    }
}

/// The arguments of a creation say what was configured, and nothing else:
/// the command line in their buffer is the command's, and the directory in
/// their buffer, where there is one, is the directory that the command was
/// given. A process created with them starts in that directory.
pub proof fn creation_names_what_was_configured(
    arguments: Creation,
    command: CommandView,
    line: Seq<char>,
    dir: Seq<char>,
)
    requires
        arguments.is_for(command),
    ensures
        arguments.command_line@ == wide(line) ==> command.command == line,
        arguments.current_directory is Some <==> command.current_directory is Some,
        arguments.current_directory is Some && arguments.current_directory->0@ == wide(dir)
            ==> command.current_directory == Some(dir),
{
    if arguments.command_line@ == wide(line) {
        wide_is_injective(command.command, line);
    }
    if arguments.current_directory is Some && arguments.current_directory->0@ == wide(dir) {
        wide_is_injective(command.current_directory->0, dir);
    }
}

/// A child created by a call that the system reports as successful has the
/// identifier of that report, and its handles are open. The identifier is
/// not zero where the reported one is not.
pub proof fn created_child_has_reported_id(answer: Created)
    requires
        answer.returned != 0,
        answer.process_id != 0,
    ensures
        ChildView::created(answer) is Ok,
        ChildView::created(answer)->Ok_0.process_id == answer.process_id,
        ChildView::created(answer)->Ok_0.process_id != 0,
        !ChildView::created(answer)->Ok_0.released,
{
}

/// A creation that the system refuses gives no child, and the error carries
/// the code of the refusal.
pub proof fn refused_creation_holds_nothing(answer: Created)
    requires
        answer.returned == 0,
    ensures
        ChildView::created(answer) == Err::<ChildView, Error>(
            Error::CreationFailed(answer.last_error),
        ),
{
}

/// A wait on an open child first blocks on its process handle without a
/// deadline. Once the process is signalled it queries the exit code, and
/// with the code it ends: the status carries exactly that code, so it is a
/// success if and only if the code is zero; both handles are handed out, and
/// the child is released.
pub proof fn wait_returns_the_exit_code(child: ChildView, signal: Reply, query: Reply)
    requires
        !child.released,
        signal.returned == WAIT_OBJECT_0,
        query.returned != 0,
    ensures
        child.begin(Stage::Signal) == (Step::Ask {
            request: Request::AwaitExit { process: child.process, timeout: INFINITE },
            stage: Stage::Signal,
        }),
        child.step(Stage::Signal, signal) == (Step::Ask {
            request: Request::QueryExitCode { process: child.process },
            stage: Stage::ExitCode,
        }),
        child.after(Stage::Signal, signal) == child,
        child.step(Stage::ExitCode, query) == (Step::Exited {
            status: ExitStatus(query.exit_code),
            process: child.process,
            thread: child.thread,
        }),
        ExitStatus(query.exit_code).is_success() <==> query.exit_code == 0,
        child.after(Stage::ExitCode, query) == (ChildView { released: true, ..child }),
{
}

/// A wait that fails leaves the handles open, so that it can be tried again:
/// a wait that is not signalled fails with `WaitFailed`, a query that fails
/// with `GetExitCodeFailed`, each with the last-error code of its reply.
pub proof fn failed_wait_keeps_the_handles(child: ChildView, reply: Reply)
    requires
        !child.released,
    ensures
        reply.returned != WAIT_OBJECT_0 ==> {
            &&& child.step(Stage::Signal, reply) == Step::Failed(
                Error::WaitFailed(reply.last_error),
            )
            &&& child.after(Stage::Signal, reply) == child
        },
        reply.returned == 0 ==> {
            &&& child.step(Stage::ExitCode, reply) == Step::Failed(
                Error::GetExitCodeFailed(reply.last_error),
            )
            &&& child.after(Stage::ExitCode, reply) == child
        },
{
}

/// A poll of a process that has not exited says so and changes nothing: the
/// handles stay open, and the child can be polled again.
pub proof fn poll_of_running_process(child: ChildView, reply: Reply)
    requires
        !child.released,
        reply.returned != 0,
        reply.exit_code == STILL_ACTIVE,
    ensures
        child.begin(Stage::Poll) == (Step::Ask {
            request: Request::QueryExitCode { process: child.process },
            stage: Stage::Poll,
        }),
        child.step(Stage::Poll, reply) == Step::Running,
        child.after(Stage::Poll, reply) == child,
{
}

/// A poll of a process that has exited gives its status and releases the
/// child, as a wait does. A poll begun after that asks nothing of the
/// system: it fails with `GetExitCodeFailed` and the code of an invalid
/// handle.
pub proof fn poll_of_exited_process(child: ChildView, reply: Reply)
    requires
        !child.released,
        reply.returned != 0,
        reply.exit_code != STILL_ACTIVE,
    ensures
        child.step(Stage::Poll, reply) == (Step::Exited {
            status: ExitStatus(reply.exit_code),
            process: child.process,
            thread: child.thread,
        }),
        child.after(Stage::Poll, reply) == (ChildView { released: true, ..child }),
        child.after(Stage::Poll, reply).begin(Stage::Poll) == Step::Failed(
            Error::GetExitCodeFailed(ERROR_INVALID_HANDLE),
        ),
{
}

/// A poll whose query fails gives `GetExitCodeFailed` with the last-error
/// code of the reply, and leaves the handles open.
pub proof fn failed_poll_keeps_the_handles(child: ChildView, reply: Reply)
    requires
        !child.released,
        reply.returned == 0,
    ensures
        child.step(Stage::Poll, reply) == Step::Failed(
            Error::GetExitCodeFailed(reply.last_error),
        ),
        child.after(Stage::Poll, reply) == child,
{
}

/// To kill an open child is to ask for the termination of its process with
/// exit code zero. Whatever the answer, the handles stay open. Where the
/// system accepts, a wait that follows and is told the exit code that the
/// termination forced gives a status with code zero.
pub proof fn kill_then_wait_gives_zero(child: ChildView, killed: Reply, signal: Reply, query: Reply)
    requires
        !child.released,
        signal.returned == WAIT_OBJECT_0,
        query.returned != 0,
        query.exit_code == KILL_EXIT_CODE,
    ensures
        child.begin(Stage::Termination) == (Step::Ask {
            request: Request::Terminate { process: child.process, exit_code: 0 },
            stage: Stage::Termination,
        }),
        killed.returned != 0 ==> child.step(Stage::Termination, killed) == Step::Killed,
        killed.returned == 0 ==> child.step(Stage::Termination, killed) == Step::Failed(
            Error::KillFailed(killed.last_error),
        ),
        child.after(Stage::Termination, killed) == child,
        child.after(Stage::Termination, killed).step(Stage::Signal, signal) == (Step::Ask {
            request: Request::QueryExitCode { process: child.process },
            stage: Stage::ExitCode,
        }),
        child.after(Stage::Termination, killed).step(Stage::ExitCode, query) == (Step::Exited {
            status: ExitStatus(0),
            process: child.process,
            thread: child.thread,
        }),
        ExitStatus(0).is_success(),
{
}

/// On a released child every operation fails before anything is asked of the
/// system, with the error of its kind and the code of an invalid handle; a
/// late reply is read the same way. Nothing changes the child any more.
pub proof fn released_child_fails(child: ChildView, stage: Stage, reply: Reply)
    requires
        child.released,
    ensures
        child.begin(Stage::Signal) == Step::Failed(Error::WaitFailed(ERROR_INVALID_HANDLE)),
        child.begin(Stage::Poll) == Step::Failed(Error::GetExitCodeFailed(ERROR_INVALID_HANDLE)),
        child.begin(Stage::Termination) == Step::Failed(Error::KillFailed(ERROR_INVALID_HANDLE)),
        child.step(stage, reply) == child.begin(stage),
        child.step(stage, reply) is Failed,
        child.after(stage, reply) == child,
{
}

/// Each operation ends in its own way. A blocking wait goes from the signal
/// to the query of the exit code and ends with the exit or a failure; a poll
/// ends with the exit, with "still running" or a failure; a kill ends as
/// accepted or as failed. A request is only ever asked of the process that
/// the child holds.
pub proof fn steps_by_stage(child: ChildView, reply: Reply)
    ensures
        child.step(Stage::Signal, reply) is Failed || child.step(Stage::Signal, reply) == (
        Step::Ask {
            request: Request::QueryExitCode { process: child.process },
            stage: Stage::ExitCode,
        }),
        child.step(Stage::ExitCode, reply) is Failed || child.step(Stage::ExitCode, reply)
            is Exited,
        child.step(Stage::Poll, reply) is Failed || child.step(Stage::Poll, reply) is Exited
            || child.step(Stage::Poll, reply) is Running,
        child.step(Stage::Termination, reply) is Failed || child.step(Stage::Termination, reply)
            is Killed,
{
}

/// One reply changes a child in one way at most: the step that reports the
/// exit releases it, and hands out the very handles that the child held. No
/// step reopens a child, and none changes its handles or its identifier.
pub proof fn step_releases_or_keeps(child: ChildView, stage: Stage, reply: Reply)
    ensures
        child.step(stage, reply) is Exited <==> !child.released && child.after(
            stage,
            reply,
        ).released,
        child.step(stage, reply) is Exited ==> {
            &&& child.step(stage, reply)->process == child.process
            &&& child.step(stage, reply)->thread == child.thread
        },
        child.released ==> child.after(stage, reply).released,
        child.after(stage, reply).process == child.process,
        child.after(stage, reply).thread == child.thread,
        child.after(stage, reply).process_id == child.process_id,
{
}

/// Over any run of replies the handles are handed out at most once: exactly
/// once where the run takes an open child to a released one, and never
/// otherwise. The handles and the identifier are the same after the run.
pub proof fn handles_are_released_once(child: ChildView, events: Seq<(Stage, Reply)>)
    ensures
        releases(child, events) <= 1,
        releases(child, events) == 1 <==> !child.released && run(child, events).released,
        child.released ==> run(child, events) == child,
        run(child, events).process == child.process,
        run(child, events).thread == child.thread,
        run(child, events).process_id == child.process_id,
    decreases events.len(),
{
    if events.len() > 0 {
        handles_are_released_once(child, events.drop_last());
        step_releases_or_keeps(
            run(child, events.drop_last()),
            events.last().0,
            events.last().1,
        );
    }
}

} // verus!
