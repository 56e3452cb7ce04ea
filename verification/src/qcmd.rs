//! One command and its way from the builder to its result.

use std::borrow::Cow;

use vstd::prelude::*;
use vstd::std_specs::convert::IntoSpec;
use vstd::utf8::{decode_utf8, valid_utf8};

use crate::error::Error;
use crate::exec::{kept_bytes, kept_text, Action, Event, ExecState};
use crate::streams::{Capture, Sink, Source, Stdio};

verus! {

/// `String::clear` empties the string.
pub assume_specification[ std::string::String::clear ](text: &mut std::string::String)
    ensures
        final(text)@ == Seq::<char>::empty(),
;

/// `std::string::FromUtf8Error`: why bytes are not UTF-8.
#[verifier::external_type_specification]
#[verifier::external_body]
pub struct ExFromUtf8Error(std::string::FromUtf8Error);

/// `String::from_utf8` makes a string of bytes that are UTF-8, and the
/// string holds the characters that they encode; other bytes are refused.
pub assume_specification[ std::string::String::from_utf8 ](bytes: std::vec::Vec<u8>) -> (text:
    std::result::Result<std::string::String, std::string::FromUtf8Error>)
    ensures
        text is Ok <==> valid_utf8(bytes@),
        text matches Ok(decoded) ==> decoded@ == decode_utf8(bytes@),
;

/// The program to run and its arguments, in order.
#[derive(Debug)]
pub struct CommandLine {
    pub program: String,
    pub args: Vec<String>,
}

impl CommandLine {
    /// The command line of a program without arguments.
    pub fn new(program: String) -> (line: Self)
        ensures
            line.program == program,
            line.args@ == Seq::<String>::empty(),
    {
        Self { program, args: Vec::new() }
    }

    /// Adds an argument behind those that are there.
    pub fn arg(&mut self, arg: String)
        ensures
            final(self).program == old(self).program,
            final(self).args@ == old(self).args@.push(arg),
    {
        self.args.push(arg);
    }
}

/// Builder object for [`QCmd`]
#[derive(Debug)]
pub struct QCmdBuilder<'source, 'sink> {
    cmd: CommandLine,
    source: Source<'source>,
    sink: Sink<'sink>,
}

impl<'source, 'sink> QCmdBuilder<'source, 'sink> {
    /// The program and its arguments.
    pub closed spec fn spec_command(self) -> CommandLine {
        self.cmd
    }

    /// Where the child's input will come from.
    pub closed spec fn spec_source(self) -> Source<'source> {
        self.source
    }

    /// Where the child's output will go.
    pub closed spec fn spec_sink(self) -> Sink<'sink> {
        self.sink
    }

    /// Creates the builder with the given command. Until they are set, the
    /// source and the sink are the streams of the calling process.
    pub fn new(cmd: CommandLine) -> (builder: Self)
        ensures
            builder.spec_command() == cmd,
            builder.spec_source() is Stdin,
            builder.spec_sink() is Stdout,
    {
        Self { cmd, source: Source::Stdin, sink: Sink::Stdout }
    }

    /// Sets the source: what the given value converts to.
    pub fn source<S: Into<Source<'source>>>(&mut self, source: S) -> (builder: &mut Self)
        ensures
            S::obeys_into_spec() ==> builder.spec_source() == source.into_spec(),
            builder.spec_sink() == old(self).spec_sink(),
            builder.spec_command() == old(self).spec_command(),
            *final(self) == *final(builder),
    {
        self.source = source.into();
        self
    }

    /// Sets the sink: what the given value converts to. For a buffer that is
    /// the sink that writes to this buffer.
    pub fn sink<S: Into<Sink<'sink>>>(&mut self, sink: S) -> (builder: &mut Self)
        ensures
            call_ensures(S::into, (sink,), builder.spec_sink()),
            builder.spec_source() == old(self).spec_source(),
            builder.spec_command() == old(self).spec_command(),
            *final(self) == *final(builder),
    {
        self.sink = sink.into();
        self
    }

    /// Builds the [`QCmd`], consuming the builder. The command has not
    /// started, and the buffer of its sink is empty.
    pub fn build(self) -> (qcmd: QCmd<'source, 'sink>)
        ensures
            qcmd.spec_command() == self.spec_command(),
            qcmd.spec_source() == self.spec_source(),
            qcmd.spec_state() is NotStarted,
            qcmd.spec_sink().capture() == self.spec_sink().capture(),
            qcmd.spec_sink().is_clear(),
            self.spec_sink() matches Sink::Str(given) ==> qcmd.spec_sink() matches Sink::Str(kept)
                && *final(given) == *final(kept),
            self.spec_sink() matches Sink::Bytes(given) ==> qcmd.spec_sink() matches Sink::Bytes(
                kept,
            ) && *final(given) == *final(kept),
    {
        QCmd::new(self.cmd, self.source, self.sink)
    }
}

/// A "quick" command that holds references to the source and sink.
///
/// The command is executed step by step: [`QCmd::action`] says what to do
/// for it next, and [`QCmd::advance`] takes what came of that.
#[derive(Debug)]
pub struct QCmd<'source, 'sink> {
    cmd: CommandLine,
    source: Source<'source>,
    sink: Sink<'sink>,
    state: ExecState,
}

/// A command on its way, or the result of one that is over.
#[derive(Debug)]
pub enum Step<'source, 'sink> {
    /// The execution goes on.
    Continue(QCmd<'source, 'sink>),
    /// The execution is over, with this result.
    Done(Result<(), Error>),
}

impl<'source, 'sink> QCmd<'source, 'sink> {
    #[verifier::type_invariant]
    spec fn inv(self) -> bool {
        &&& !self.state.is_final()
        &&& self.sink.is_clear()
        &&& self.state is Spawned ==> self.source.payload() is Some
        &&& self.state is Waited ==> self.sink.capture() != Capture::Nothing
    }

    /// The program and its arguments.
    pub closed spec fn spec_command(self) -> CommandLine {
        self.cmd
    }

    /// Where the child's input comes from.
    pub closed spec fn spec_source(self) -> Source<'source> {
        self.source
    }

    /// Where the child's output goes.
    pub closed spec fn spec_sink(self) -> Sink<'sink> {
        self.sink
    }

    /// How far the execution has come.
    pub closed spec fn spec_state(self) -> ExecState {
        self.state
    }

    /// Creates a new QCmd with the given source and sink. The buffer of the
    /// sink is emptied: what it held does not mix with the output to come.
    pub fn new(cmd: CommandLine, source: Source<'source>, sink: Sink<'sink>) -> (qcmd: Self)
        ensures
            qcmd.spec_command() == cmd,
            qcmd.spec_source() == source,
            qcmd.spec_state() is NotStarted,
            qcmd.spec_sink().capture() == sink.capture(),
            qcmd.spec_sink().is_clear(),
            sink matches Sink::Str(given) ==> qcmd.spec_sink() matches Sink::Str(kept)
                && *final(given) == *final(kept),
            sink matches Sink::Bytes(given) ==> qcmd.spec_sink() matches Sink::Bytes(kept)
                && *final(given) == *final(kept),
    {
        let sink = match sink {
            Sink::Stdout => Sink::Stdout,
            Sink::Str(text) => {
                text.clear();
                Sink::Str(text)
            },
            Sink::Bytes(bytes) => {
                bytes.clear();
                Sink::Bytes(bytes)
            },
        };
        Self { cmd, source, sink, state: ExecState::NotStarted }
    }

    /// How far the execution has come.
    pub fn state(&self) -> (state: &ExecState)
        ensures
            *state == self.spec_state(),
            !state.is_final(),
    {
        proof {
            use_type_invariant(self);
        }
        &self.state
    }

    /// The program to run and its arguments.
    pub fn command(&self) -> (cmd: &CommandLine)
        ensures
            *cmd == self.spec_command(),
    {
        &self.cmd
    }

    /// What is to be done next for this command.
    pub fn action(&self) -> (action: Action<'_>)
        ensures
            match self.spec_state() {
                ExecState::NotStarted => action == (Action::Spawn {
                    stdin: self.spec_source().spec_stdio(),
                    stdout: self.spec_sink().spec_stdio(),
                }),
                ExecState::Spawned => action matches Action::WriteInput(bytes) && Some(bytes@)
                    == self.spec_source().payload(),
                ExecState::InputWritten | ExecState::NoInput => action is Wait,
                _ => action is ReadOutput,
            },
    {
        proof {
            use_type_invariant(self);
        }
        match &self.state {
            ExecState::NotStarted => Action::Spawn {
                stdin: self.source.stdio(),
                stdout: self.sink.stdio(),
            },
            ExecState::Spawned => match &self.source {
                Source::Str(Cow::Borrowed(text)) => Action::WriteInput(text.as_bytes()),
                Source::Str(Cow::Owned(text)) => Action::WriteInput(text.as_str().as_bytes()),
                Source::Bytes(Cow::Borrowed(bytes)) => Action::WriteInput(bytes),
                Source::Bytes(Cow::Owned(bytes)) => Action::WriteInput(bytes.as_slice()),
                Source::Stdin => Action::Wait,
            },
            ExecState::InputWritten => Action::Wait,
            ExecState::NoInput => Action::Wait,
            _ => Action::ReadOutput,
        }
    }

    /// Takes what came of the action that the command asked for, and moves
    /// the execution on as [`ExecState::next`] says.
    ///
    /// Where the execution ends well, a sink with a buffer holds the child's
    /// output, and nothing else. Where it fails, the buffer is empty:
    /// nothing is kept of output that is not UTF-8 where text is asked for.
    pub fn advance(self, event: Event) -> (step: Step<'source, 'sink>)
        ensures
            ({
                let next = self.spec_state().next(
                    self.spec_source().payload() is Some,
                    self.spec_sink().capture(),
                    event,
                );
                match step {
                    Step::Continue(qcmd) => {
                        &&& qcmd.spec_state() == next
                        &&& qcmd.spec_command() == self.spec_command()
                        &&& qcmd.spec_source() == self.spec_source()
                        &&& qcmd.spec_sink() == self.spec_sink()
                    },
                    Step::Done(result) => {
                        &&& next.is_final()
                        &&& result == next.result()
                        &&& self.spec_sink() matches Sink::Str(text) ==> final(text)@
                            == kept_text(next, event)
                        &&& self.spec_sink() matches Sink::Bytes(buffer) ==> final(buffer)@
                            == kept_bytes(next, event)
                    },
                }
            }),
            step is Done <==> self.spec_state().next(
                self.spec_source().payload() is Some,
                self.spec_sink().capture(),
                event,
            ).is_final(),
    {
        proof {
            use_type_invariant(&self);
        }
        let QCmd { cmd, source, sink, state } = self;
        match event {
            Event::Failed(e) => Step::Done(Err(Error::Io(e))),
            Event::Spawned => match state {
                ExecState::NotStarted => {
                    let state = match source.stdio() {
                        Stdio::Piped => ExecState::Spawned,
                        Stdio::Inherit => ExecState::NoInput,
                    };
                    Step::Continue(QCmd { cmd, source, sink, state })
                },
                _ => Step::Continue(QCmd { cmd, source, sink, state }),
            },
            Event::InputWritten => match state {
                ExecState::Spawned => Step::Continue(
                    QCmd { cmd, source, sink, state: ExecState::InputWritten },
                ),
                _ => Step::Continue(QCmd { cmd, source, sink, state }),
            },
            Event::Exited(code) => match state {
                ExecState::InputWritten | ExecState::NoInput => match Error::from_exit_code(code) {
                    Err(e) => Step::Done(Err(e)),
                    Ok(()) => match sink {
                        Sink::Stdout => Step::Done(Ok(())),
                        _ => Step::Continue(QCmd { cmd, source, sink, state: ExecState::Waited }),
                    },
                },
                _ => Step::Continue(QCmd { cmd, source, sink, state }),
            },
            Event::Output(bytes) => match state {
                ExecState::Waited => match sink {
                    Sink::Stdout => Step::Done(Ok(())),
                    Sink::Str(text) => match String::from_utf8(bytes) {
                        Ok(decoded) => {
                            *text = decoded;
                            Step::Done(Ok(()))
                        },
                        Err(_) => Step::Done(Err(Error::NotUtf8)),
                    },
                    Sink::Bytes(buffer) => {
                        *buffer = bytes;
                        Step::Done(Ok(()))
                    },
                },
                _ => Step::Continue(QCmd { cmd, source, sink, state }),
            },
        }
    }
}

} // verus!
