//! Where the input of a child process comes from, and where its output
//! goes.

use std::borrow::Cow;

use vstd::prelude::*;
use vstd::std_specs::convert::FromSpecImpl;
use vstd::utf8::encode_utf8;

verus! {

/// How a standard stream of the child process is set up.
#[derive(Debug, Clone, Copy, PartialEq, Eq, Structural)]
pub enum Stdio {
    /// The stream of the calling process.
    Inherit,
    /// A pipe between the calling process and the child.
    Piped,
}

/// What a sink keeps of the child's output.
#[derive(Debug, Clone, Copy, PartialEq, Eq, Structural)]
pub enum Capture {
    /// Nothing: the output goes where the caller's own output goes.
    Nothing,
    /// The output as text, which has to be UTF-8.
    Text,
    /// The output as bytes, whatever they are.
    Bytes,
}

/// Command stdin sources.
#[derive(Debug)]
pub enum Source<'source> {
    /// Inherit the stdin pipe
    Stdin,
    /// Pipe the input from a string-like object
    Str(Cow<'source, str>),
    /// Pipe the input from a bytes-like object
    Bytes(Cow<'source, [u8]>),
}

/// Command stdout sinks
#[derive(Debug)]
pub enum Sink<'sink> {
    /// Inherit the stdout pipe
    Stdout,
    /// Write the output to a [`String`]
    Str(&'sink mut String),
    /// Write the output to a [`Vec<u8>`]
    Bytes(&'sink mut Vec<u8>),
}

impl<'source> Source<'source> {
    /// The bytes that the child reads from its standard input, where they
    /// come from this library.
    pub open spec fn payload(self) -> Option<Seq<u8>> {
        match self {
            Source::Stdin => None,
            Source::Str(text) => Some(encode_utf8(text@)),
            Source::Bytes(bytes) => Some(bytes@),
        }
    }

    /// How the child's standard input is set up for this source.
    pub open spec fn spec_stdio(self) -> Stdio {
        match self {
            Source::Stdin => Stdio::Inherit,
            _ => Stdio::Piped,
        }
    }

    /// How the child's standard input is set up for this source.
    pub fn stdio(&self) -> (mode: Stdio)
        ensures
            mode == self.spec_stdio(),
    {
        match self {
            Source::Stdin => Stdio::Inherit,
            Source::Str(_) => Stdio::Piped,
            Source::Bytes(_) => Stdio::Piped,
        }
    }
}

impl<'sink> Sink<'sink> {
    /// What this sink keeps of the child's output.
    pub open spec fn capture(self) -> Capture {
        match self {
            Sink::Stdout => Capture::Nothing,
            Sink::Str(_) => Capture::Text,
            Sink::Bytes(_) => Capture::Bytes,
        }
    }

    /// How the child's standard output is set up for this sink.
    pub open spec fn spec_stdio(self) -> Stdio {
        match self {
            Sink::Stdout => Stdio::Inherit,
            _ => Stdio::Piped,
        }
    }

    /// How the child's standard output is set up for this sink.
    pub fn stdio(&self) -> (mode: Stdio)
        ensures
            mode == self.spec_stdio(),
    {
        match self {
            Sink::Stdout => Stdio::Inherit,
            Sink::Str(_) => Stdio::Piped,
            Sink::Bytes(_) => Stdio::Piped,
        }
    }

    /// Whether the buffer of this sink, if it has one, is empty.
    pub open spec fn is_clear(self) -> bool {
        match self {
            Sink::Stdout => true,
            Sink::Str(text) => text@.len() == 0,
            Sink::Bytes(bytes) => bytes@.len() == 0,
        }
    }
}

impl<'source> Default for Source<'source> {
    fn default() -> (source: Self)
        ensures
            source is Stdin,
    {
        Source::Stdin
    }
}

impl<'sink> Default for Sink<'sink> {
    fn default() -> (sink: Self)
        ensures
            sink is Stdout,
    {
        Sink::Stdout
    }
}

impl<'source> From<&'source str> for Source<'source> {
    fn from(value: &'source str) -> (source: Self) {
        Self::Str(Cow::Borrowed(value))
    }
}

impl<'source> FromSpecImpl<&'source str> for Source<'source> {
    open spec fn obeys_from_spec() -> bool {
        true
    }

    open spec fn from_spec(value: &'source str) -> Self {
        Self::Str(Cow::Borrowed(value))
    }
}

impl<'source> From<String> for Source<'source> {
    fn from(value: String) -> (source: Self) {
        Self::Str(Cow::Owned(value))
    }
}

impl<'source> FromSpecImpl<String> for Source<'source> {
    open spec fn obeys_from_spec() -> bool {
        true
    }

    open spec fn from_spec(value: String) -> Self {
        Self::Str(Cow::Owned(value))
    }
}

impl<'source> From<&'source [u8]> for Source<'source> {
    fn from(value: &'source [u8]) -> (source: Self) {
        Self::Bytes(Cow::Borrowed(value))
    }
}

impl<'source> FromSpecImpl<&'source [u8]> for Source<'source> {
    open spec fn obeys_from_spec() -> bool {
        true
    }

    open spec fn from_spec(value: &'source [u8]) -> Self {
        Self::Bytes(Cow::Borrowed(value))
    }
}

impl<'source> From<Vec<u8>> for Source<'source> {
    fn from(value: Vec<u8>) -> (source: Self) {
        Self::Bytes(Cow::Owned(value))
    }
}

impl<'source> FromSpecImpl<Vec<u8>> for Source<'source> {
    open spec fn obeys_from_spec() -> bool {
        true
    }

    open spec fn from_spec(value: Vec<u8>) -> Self {
        Self::Bytes(Cow::Owned(value))
    }
}

impl<'sink> From<&'sink mut String> for Sink<'sink> {
    fn from(value: &'sink mut String) -> (sink: Self)
        ensures
            sink matches Sink::Str(text) && *text == *old(value) && *final(text) == *final(value),
    {
        Self::Str(value)
    }
}

// The sink borrows the buffer anew, so it is no value that a spec function
// could make of the borrow that was handed in: `from` itself says what holds.
impl<'sink> FromSpecImpl<&'sink mut String> for Sink<'sink> {
    open spec fn obeys_from_spec() -> bool {
        false
    }

    open spec fn from_spec(value: &'sink mut String) -> Self {
        Self::Str(value)
    }
}

impl<'sink> From<&'sink mut Vec<u8>> for Sink<'sink> {
    fn from(value: &'sink mut Vec<u8>) -> (sink: Self)
        ensures
            sink matches Sink::Bytes(bytes) && *bytes == *old(value)
                && *final(bytes) == *final(value),
    {
        Self::Bytes(value)
    }
}

// As for the text buffer: `from` itself says what holds.
impl<'sink> FromSpecImpl<&'sink mut Vec<u8>> for Sink<'sink> {
    open spec fn obeys_from_spec() -> bool {
        false
    }

    open spec fn from_spec(value: &'sink mut Vec<u8>) -> Self {
        Self::Bytes(value)
    }
}

} // verus!
