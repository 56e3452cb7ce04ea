//! The execution of one command, as a state machine: the caller does the
//! work on the child process, and the machine decides what is to be done.

use vstd::prelude::*;
use vstd::utf8::{decode_utf8, valid_utf8};

use crate::error::{exit_failure, Error};
use crate::streams::{Capture, Stdio};

verus! {

/// How far the execution of a command has come.
#[derive(Debug)]
pub enum ExecState {
    /// Nothing has happened yet.
    NotStarted,
    /// The child runs and waits for its input.
    Spawned,
    /// The child has all of its input, and its standard input is closed.
    InputWritten,
    /// The child runs, and has no input from this library.
    NoInput,
    /// The child has ended well, and its output is still to be read.
    Waited,
    /// The execution has ended well.
    Succeeded,
    /// The execution has failed.
    Failed(Error),
}

/// What the caller reports of the operation that the command asked for.
#[derive(Debug)]
pub enum Event {
    /// The child process was spawned.
    Spawned,
    /// The input was written to the child, and its standard input closed.
    InputWritten,
    /// The child has ended, with this exit code, or with none where a signal
    /// ended it.
    Exited(Option<i32>),
    /// The child's standard output was read to its end, and held these bytes.
    Output(Vec<u8>),
    /// The operation failed.
    Failed(std::io::Error),
}

/// What the caller has to do next for the command.
#[derive(Debug)]
pub enum Action<'a> {
    /// Spawn the child process, with its streams set up like this.
    Spawn { stdin: Stdio, stdout: Stdio },
    /// Write these bytes to the child's standard input, then close it.
    WriteInput(&'a [u8]),
    /// Wait until the child has ended.
    Wait,
    /// Read the child's standard output to its end.
    ReadOutput,
}

impl ExecState {
    /// Whether the execution is over.
    pub open spec fn is_final(self) -> bool {
        self is Succeeded || self is Failed
    }

    /// The state that follows on an event, for a command that does or does
    /// not feed the child's input and keeps this of its output.
    ///
    /// A failed operation ends the execution, and so does a child that does
    /// not end with the exit code 0. Output is read only from a child that
    /// ended well. An event that answers no request of the state at hand
    /// changes nothing.
    pub open spec fn next(self, feeds: bool, capture: Capture, event: Event) -> ExecState {
        match (self, event) {
            (ExecState::Succeeded, _) => self,
            (ExecState::Failed(_), _) => self,
            (_, Event::Failed(e)) => ExecState::Failed(Error::Io(e)),
            (ExecState::NotStarted, Event::Spawned) => if feeds {
                ExecState::Spawned
            } else {
                ExecState::NoInput
            },
            (ExecState::Spawned, Event::InputWritten) => ExecState::InputWritten,
            (ExecState::InputWritten, Event::Exited(code)) => after_exit(code, capture),
            (ExecState::NoInput, Event::Exited(code)) => after_exit(code, capture),
            (ExecState::Waited, Event::Output(bytes)) => if capture == Capture::Text && !valid_utf8(
                bytes@,
            ) {
                ExecState::Failed(Error::NotUtf8)
            } else {
                ExecState::Succeeded
            },
            _ => self,
        }
    }

    /// The state after a sequence of events, each taken in turn.
    pub open spec fn after(self, feeds: bool, capture: Capture, events: Seq<Event>) -> ExecState
        decreases events.len(),
    {
        if events.len() == 0 {
            self
        } else {
            self.after(feeds, capture, events.drop_last()).next(feeds, capture, events.last())
        }
    }

    /// The result of an execution that is over.
    pub open spec fn result(self) -> Result<(), Error>
        recommends
            self.is_final(),
    {
        match self {
            ExecState::Failed(e) => Err(e),
            _ => Ok(()),
        }
    }
}

/// What stands in the buffer of a text sink when the execution has ended in
/// the state `end` on `event`: the text of the child's output where it ended
/// well, and nothing where it failed.
pub open spec fn kept_text(end: ExecState, event: Event) -> Seq<char> {
    match (end, event) {
        (ExecState::Succeeded, Event::Output(bytes)) => decode_utf8(bytes@),
        _ => Seq::empty(),
    }
}

/// What stands in the buffer of a byte sink when the execution has ended in
/// the state `end` on `event`: the child's output where it ended well, and
/// nothing where it failed.
pub open spec fn kept_bytes(end: ExecState, event: Event) -> Seq<u8> {
    match (end, event) {
        (ExecState::Succeeded, Event::Output(bytes)) => bytes@,
        _ => Seq::empty(),
    }
}

/// The state after the child has ended with the given exit code.
pub open spec fn after_exit(code: Option<i32>, capture: Capture) -> ExecState {
    match exit_failure(code) {
        Some(e) => ExecState::Failed(e),
        None => if capture == Capture::Nothing {
            ExecState::Succeeded
        } else {
            ExecState::Waited
        },
    }
}

} // verus!
