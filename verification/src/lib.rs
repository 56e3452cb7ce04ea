//! A small shell-like notation for running external commands.
//!
//! A statement names a program, its arguments and at most one redirection of
//! each standard stream: `echo hello {world} > {out}`. Several statements are
//! separated by `;`. The crate parses token sequences written in this notation
//! into command descriptors and drives the execution of one command against
//! in-memory buffers, up to the operating system calls themselves, which are
//! left to the caller.

pub mod command;
pub mod error;
pub mod exec;
pub mod invocation;
pub mod laws;
pub mod literal;
pub mod parser;
pub mod qcmd;
pub mod streams;
pub mod token;

pub use command::{Arg, Cmd, Target};
pub use error::{BuildError, Error, ParseError, Redirection};
pub use exec::{Action, Event, ExecState};
pub use invocation::Invocation;
pub use parser::{cmd, parse, ParseResult, ParseState, ShParser};
pub use qcmd::{CommandLine, QCmd, QCmdBuilder, Step};
pub use streams::{Capture, Sink, Source, Stdio};
pub use token::{Lexeme, Token};
