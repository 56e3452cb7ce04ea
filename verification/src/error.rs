//! Failures of a parse, and of one command execution.

use vstd::prelude::*;

verus! {

/// `std::io::Error`, carried through unchanged from the caller that met it.
#[verifier::external_type_specification]
#[verifier::external_body]
pub struct ExIoError(std::io::Error);

/// One of the two standard streams that a statement can redirect.
#[derive(Debug, Clone, Copy, PartialEq, Eq, Structural)]
pub enum Redirection {
    /// The standard output, redirected by `>`.
    Sink,
    /// The standard input, redirected by `<`.
    Source,
}

/// Why a token sequence is not a sequence of statements.
#[derive(Debug, Clone, Copy, PartialEq, Eq, Structural)]
pub enum ParseError {
    /// A statement does not begin with a value: there is no program to run.
    UnexpectedCommand,
    /// A token stands where the statement cannot continue with it.
    UnexpectedToken,
    /// A second sink is given in one statement.
    SinkSetTwice,
    /// A second source is given in one statement.
    SourceSetTwice,
    /// A punctuation character other than `;`, `>` and `<`.
    UnexpectedPunct(char),
    /// A character literal, which cannot stand for a value.
    CharLiteral,
    /// A byte or byte string literal, which cannot stand for a value.
    ByteLiteral,
    /// A literal that is none of the host language.
    InvalidLiteral,
}

impl ParseError {
    /// The text that describes this error.
    pub open spec fn spec_message(&self) -> Seq<char> {
        match self {
            ParseError::UnexpectedCommand => "Unexpected command"@,
            ParseError::UnexpectedToken => "Unexpected token"@,
            ParseError::SinkSetTwice => "Can't set the sink more than once"@,
            ParseError::SourceSetTwice => "Can't set the source more than once"@,
            ParseError::UnexpectedPunct(_) => "Unexpected token"@,
            ParseError::CharLiteral => "Character literals are not implemented"@,
            ParseError::ByteLiteral => "Byte literals are not implemented"@,
            ParseError::InvalidLiteral => "Invalid literal"@,
        }
    }

    /// The text that describes this error.
    pub fn message(&self) -> (text: String)
        ensures
            text@ == self.spec_message(),
    {
        match self {
            ParseError::UnexpectedCommand => "Unexpected command".to_owned(),
            ParseError::UnexpectedToken => "Unexpected token".to_owned(),
            ParseError::SinkSetTwice => "Can't set the sink more than once".to_owned(),
            ParseError::SourceSetTwice => "Can't set the source more than once".to_owned(),
            ParseError::UnexpectedPunct(_) => "Unexpected token".to_owned(),
            ParseError::CharLiteral => "Character literals are not implemented".to_owned(),
            ParseError::ByteLiteral => "Byte literals are not implemented".to_owned(),
            ParseError::InvalidLiteral => "Invalid literal".to_owned(),
        }
    }
}

/// Why a command that was parsed cannot be made to run.
#[derive(Debug, Clone, Copy, PartialEq, Eq, Structural)]
pub enum BuildError {
    /// The stream is redirected to or from a file, which is not implemented.
    NotImplemented(Redirection),
    /// The stream is redirected to or from a group that is no reference to a
    /// buffer: an identifier was expected.
    ExpectedIdentifier(Redirection),
}

impl BuildError {
    /// The text that describes this error.
    pub open spec fn spec_message(&self) -> Seq<char> {
        match self {
            BuildError::NotImplemented(Redirection::Sink) =>
                "Writing command output to file is not yet implemented"@,
            BuildError::NotImplemented(Redirection::Source) =>
                "Reading command input from file is not yet implemented"@,
            BuildError::ExpectedIdentifier(_) => "Expected identifier"@,
        }
    }

    /// The text that describes this error.
    pub fn message(&self) -> (text: String)
        ensures
            text@ == self.spec_message(),
    {
        match self {
            BuildError::NotImplemented(Redirection::Sink) =>
                "Writing command output to file is not yet implemented".to_owned(),
            BuildError::NotImplemented(Redirection::Source) =>
                "Reading command input from file is not yet implemented".to_owned(),
            BuildError::ExpectedIdentifier(_) => "Expected identifier".to_owned(),
        }
    }
}

/// Error executing the command
#[derive(Debug)]
pub enum Error {
    /// IO Error
    Io(std::io::Error),
    /// Non-zero status code
    StatusFailure(i32),
    /// Unexpected termination by signal
    UnexpectedTermination,
    /// Output data is not UTF8
    NotUtf8,
}

/// What the termination of a child process means: `None` is success,
/// `Some(e)` is the failure `e`.
pub open spec fn exit_failure(code: Option<i32>) -> Option<Error> {
    match code {
        Some(c) => if c == 0 {
            None
        } else {
            Some(Error::StatusFailure(c))
        },
        None => Some(Error::UnexpectedTermination),
    }
}

impl Error {
    /// The text that describes this error.
    pub open spec fn spec_message(&self) -> Seq<char> {
        match self {
            Error::Io(_) => "IO Error while executing the command"@,
            Error::StatusFailure(_) => "Command returned a non okay status"@,
            Error::UnexpectedTermination => "Process was terminated by a signal"@,
            Error::NotUtf8 => "Piped output does not conform to UTF-8"@,
        }
    }

    /// The text that describes this error.
    pub fn message(&self) -> (text: String)
        ensures
            text@ == self.spec_message(),
    {
        match self {
            Error::Io(_) => "IO Error while executing the command".to_owned(),
            Error::StatusFailure(_) => "Command returned a non okay status".to_owned(),
            Error::UnexpectedTermination => "Process was terminated by a signal".to_owned(),
            Error::NotUtf8 => "Piped output does not conform to UTF-8".to_owned(),
        }
    }

    /// Classifies how a child process ended, given its exit code, or `None`
    /// where it ended without one (killed by a signal).
    ///
    /// Exactly one of three outcomes is reported: success for the code `0`,
    /// `StatusFailure` with the code for any other code, and
    /// `UnexpectedTermination` where there is no code.
    pub fn from_exit_code(code: Option<i32>) -> (outcome: Result<(), Error>)
        ensures
            outcome is Ok <==> code == Some(0i32),
            outcome matches Err(e) ==> exit_failure(code) == Some(e),
            outcome matches Err(Error::StatusFailure(c)) ==> code == Some(c) && c != 0,
            outcome matches Err(Error::UnexpectedTermination) ==> code is None,
            !(outcome matches Err(Error::Io(_))),
            !(outcome matches Err(Error::NotUtf8)),
    {
        match code {
            Some(c) => if c == 0 {
                Ok(())
            } else {
                Err(Error::StatusFailure(c))
            },
            None => Err(Error::UnexpectedTermination),
        }
    }
}

} // verus!
