//! The configuration of a process to create.

use vstd::prelude::*;
use crate::child::{Child, ChildView};
use crate::error::Error;
use crate::system::{Created, Request, Stage, Step, INFINITE};
use crate::wide::{encode_wide, wide};

verus! {

/// The value of the creation flags: nothing special is asked for.
pub const NO_CREATION_FLAGS: u32 = 0;

/// A process builder: the full command line, as one would type it at a
/// shell, and how the process is to be created.
///
/// A command holds no resource of the system. The same command can create
/// any number of processes, each independent of the others.
#[derive(Debug, Clone)]
pub struct Command {
    command: String,
    inherit_handles: bool,
    current_directory: Option<String>,
}

/// A command as contracts see it.
pub struct CommandView {
    /// The command line: program name and arguments, undivided.
    pub command: Seq<char>,
    /// Whether the process inherits the inheritable handles of its creator.
    pub inherit_handles: bool,
    /// The working directory of the process; `None` for that of its creator.
    pub current_directory: Option<Seq<char>>,
}

/// The arguments of one creation call.
///
/// What is not among them is never passed: no program path (the system finds
/// the program from the first token of the command line), no security
/// attributes for the process or its thread, no environment block (the
/// process inherits that of its creator).
#[derive(Debug)]
pub struct Creation {
    /// The command line, wide and zero-terminated, in a buffer of its own
    /// that the system may write to.
    pub command_line: Vec<u16>,
    /// Whether the process inherits the inheritable handles of its creator.
    pub inherit_handles: bool,
    /// The creation flags.
    pub creation_flags: u32,
    /// The working directory, wide and zero-terminated; `None` for that of
    /// the creator.
    pub current_directory: Option<Vec<u16>>,
}

impl View for Command {
    type V = CommandView;

    closed spec fn view(&self) -> CommandView {
        CommandView {
            command: self.command@,
            inherit_handles: self.inherit_handles,
            current_directory: match self.current_directory {
                Some(dir) => Some(dir@),
                None => None,
            },
        }
    }
}

impl Creation {
    /// Whether these are the arguments with which `command` creates a
    /// process.
    pub open spec fn is_for(self, command: CommandView) -> bool {
        &&& self.command_line@ == wide(command.command)
        &&& self.inherit_handles == command.inherit_handles
        &&& self.creation_flags == NO_CREATION_FLAGS
        &&& match command.current_directory {
            Some(dir) => self.current_directory is Some && self.current_directory->0@ == wide(dir),
            None => self.current_directory is None,
        }
    }
}

impl Command {
    /// A command for the given command line. Nothing is checked of it: the
    /// system rejects what it cannot run.
    ///
    /// The process will not inherit the handles of its creator, and will
    /// start in its creator's working directory.
    pub fn new(command: &str) -> (built: Command)
        ensures
            built@ == (CommandView {
                command: command@,
                inherit_handles: false,
                current_directory: None,
            }),
    {
        Command { command: command.to_owned(), inherit_handles: false, current_directory: None }
    }

    /// Sets whether the process inherits the inheritable handles of its
    /// creator.
    pub fn inherit_handles(&mut self, inherit: bool) -> (chained: &mut Command)
        ensures
            chained@ == (CommandView { inherit_handles: inherit, ..old(self)@ }),
            *final(self) == *final(chained),
    {
        self.inherit_handles = inherit;
        self
    }

    /// Sets the working directory of the process.
    pub fn current_dir(&mut self, dir: &str) -> (chained: &mut Command)
        ensures
            chained@ == (CommandView { current_directory: Some(dir@), ..old(self)@ }),
            *final(self) == *final(chained),
    {
        self.current_directory = Some(dir.to_owned());
        self
    }

    /// The arguments of the creation call for this command, in buffers made
    /// for this one call: the system may rewrite the command line while it
    /// reads it, so no buffer is handed out twice.
    pub fn creation(&self) -> (arguments: Creation)
        ensures
            arguments.is_for(self@),
    {
        let current_directory = match &self.current_directory {
            Some(dir) => Some(encode_wide(dir.as_str())),
            None => None,
        };
        Creation {
            command_line: encode_wide(self.command.as_str()),
            inherit_handles: self.inherit_handles,
            creation_flags: NO_CREATION_FLAGS,
            current_directory,
        }
    }

    /// The child of a creation call, from the system's answer to it.
    ///
    /// Where the call returned nonzero the child owns the two handles of the
    /// answer. Where it returned zero nothing is held, and the error is
    /// `CreationFailed` with the answer's last-error code. The command is
    /// left as it is, and can create further processes.
    pub fn spawn(&self, answer: Created) -> (result: Result<Child, Error>)
        ensures
            result is Ok <==> answer.returned != 0,
            match result {
                Ok(child) => child@ == (ChildView {
                    process: answer.process,
                    thread: answer.thread,
                    process_id: answer.process_id,
                    released: false,
                }),
                Err(error) => error == Error::CreationFailed(answer.last_error),
            },
    {
        Child::new(answer)
    }

    /// The child of a creation call, and the first step of the blocking wait
    /// that is begun on it at once; or the creation's error, as `spawn`
    /// gives it.
    pub fn status(&self, answer: Created) -> (result: Result<(Child, Step), Error>)
        ensures
            result is Ok <==> answer.returned != 0,
            match result {
                Ok((child, step)) => {
                    &&& child@ == (ChildView {
                        process: answer.process,
                        thread: answer.thread,
                        process_id: answer.process_id,
                        released: false,
                    })
                    &&& step == (Step::Ask {
                        request: Request::AwaitExit { process: answer.process, timeout: INFINITE },
                        stage: Stage::Signal,
                    })
                },
                Err(error) => error == Error::CreationFailed(answer.last_error),
            },
    {
        match self.spawn(answer) {
            Ok(child) => {
                let step = child.wait();
                Ok((child, step))
            },
            Err(error) => Err(error),
        }
    }
}

} // verus!
