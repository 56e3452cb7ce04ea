//! Literals of the host language, and the text that stands for them in a
//! statement.

use vstd::prelude::*;
use vstd::utf8::encode_utf8;

use crate::error::ParseError;

verus! {

/// The kinds of literal that `litrs` tells apart.
#[derive(Debug, Clone, Copy, PartialEq, Eq, Structural)]
pub enum LiteralKind {
    Bool,
    Integer,
    Float,
    Char,
    String,
    Byte,
    ByteString,
}

/// How a literal gives the text of a value.
#[derive(Debug, Clone, Copy, PartialEq, Eq, Structural)]
pub enum ValueText {
    /// The literal as it is written: `1`, `3u8`, `1.23`, `true`.
    Written,
    /// What a string literal denotes, without its quotes and with its
    /// escapes resolved.
    Denoted,
}

/// The kind of the literal that `litrs::Literal::parse` finds in a text, or
/// `None` where it finds the text to be no literal.
pub uninterp spec fn literal_kind(text: Seq<char>) -> Option<LiteralKind>;

/// The value that `litrs::StringLit::into_value` gives for the string
/// literal that `litrs::StringLit::parse` finds in a text, or `None` where it
/// finds the text to be no string literal.
pub uninterp spec fn string_literal_value(text: Seq<char>) -> Option<Seq<char>>;

/// Whether a text, given by its bytes, is one that `litrs` cannot be handed:
/// it begins like a string or a byte string, holds a backslash, and ends in
/// a character of several bytes.
///
/// To resolve an escape, `litrs` cuts such a text one byte before its end,
/// which is inside that last character, and panics. No text of this form is
/// a literal: a backslash before the closing quote is an escape, and one
/// behind it is in no suffix.
pub open spec fn escape_hazard(bytes: Seq<u8>) -> bool {
    &&& bytes.len() >= 2
    &&& bytes[0] == 0x22 || (bytes[0] == 0x62 && bytes[1] == 0x22)
    &&& bytes.last() >= 0x80
    &&& exists|i: int| 0 <= i < bytes.len() && bytes[i] == 0x5c
}

/// Whether the text is one that `litrs` cannot be handed.
pub fn has_escape_hazard(text: &str) -> (yes: bool)
    ensures
        yes == escape_hazard(encode_utf8(text@)),
{
    let bytes = text.as_bytes();
    let n: usize = bytes.len();
    if n < 2 {
        return false;
    }
    if !(bytes[0] == 0x22u8 || (bytes[0] == 0x62u8 && bytes[1] == 0x22u8)) {
        return false;
    }
    if bytes[n - 1] < 0x80u8 {
        return false;
    }
    let mut i: usize = 0;
    while i < n
        invariant
            i <= n,
            n == bytes@.len(),
            n >= 2,
            bytes@ == encode_utf8(text@),
            bytes@[0] == 0x22 || (bytes@[0] == 0x62 && bytes@[1] == 0x22),
            bytes@.last() >= 0x80,
            forall|j: int| 0 <= j < i ==> bytes@[j] != 0x5c,
        decreases n - i,
    {
        if bytes[i] == 0x5cu8 {
            return true;
        }
        i += 1;
    }
    false
}

/// Calls `litrs::Literal::parse` on the text and says which kind of literal
/// came back, if any. Nothing is claimed of which texts are of which kind:
/// the answer has the name [`literal_kind`].
#[verifier::external_body]
fn parse_kind(text: &str) -> (kind: Option<LiteralKind>)
    requires
        !escape_hazard(encode_utf8(text@)),
    ensures
        kind == literal_kind(text@),
{
    match litrs::Literal::parse(text) {
        Ok(litrs::Literal::Bool(_)) => Some(LiteralKind::Bool),
        Ok(litrs::Literal::Integer(_)) => Some(LiteralKind::Integer),
        Ok(litrs::Literal::Float(_)) => Some(LiteralKind::Float),
        Ok(litrs::Literal::Char(_)) => Some(LiteralKind::Char),
        Ok(litrs::Literal::String(_)) => Some(LiteralKind::String),
        Ok(litrs::Literal::Byte(_)) => Some(LiteralKind::Byte),
        Ok(litrs::Literal::ByteString(_)) => Some(LiteralKind::ByteString),
        Err(_) => None,
    }
}

/// Calls `litrs::StringLit::parse` on the text and, where that finds a string
/// literal, `into_value` on it. Nothing is claimed of the value but its name,
/// [`string_literal_value`].
#[verifier::external_body]
fn parse_string_value(text: &str) -> (value: Option<String>)
    requires
        !escape_hazard(encode_utf8(text@)),
    ensures
        value is Some == string_literal_value(text@) is Some,
        value matches Some(denoted) ==> string_literal_value(text@) == Some(denoted@),
{
    match litrs::StringLit::parse(text) {
        Ok(literal) => Some(literal.into_value().into_owned()),
        Err(_) => None,
    }
}

/// Which text a literal of the given kind gives, or why it gives none.
pub open spec fn spec_value_text(kind: Option<LiteralKind>) -> Result<ValueText, ParseError> {
    match kind {
        None => Err(ParseError::InvalidLiteral),
        Some(LiteralKind::Bool) => Ok(ValueText::Written),
        Some(LiteralKind::Integer) => Ok(ValueText::Written),
        Some(LiteralKind::Float) => Ok(ValueText::Written),
        Some(LiteralKind::String) => Ok(ValueText::Denoted),
        Some(LiteralKind::Char) => Err(ParseError::CharLiteral),
        Some(LiteralKind::Byte) => Err(ParseError::ByteLiteral),
        Some(LiteralKind::ByteString) => Err(ParseError::ByteLiteral),
    }
}

/// The text of the value that a literal stands for, or why it stands for
/// none, over what `litrs` says of the literal's text.
pub open spec fn spec_literal_value(text: Seq<char>) -> Result<Seq<char>, ParseError> {
    if escape_hazard(encode_utf8(text)) {
        Err(ParseError::InvalidLiteral)
    } else {
        match spec_value_text(literal_kind(text)) {
            Err(e) => Err(e),
            Ok(ValueText::Written) => Ok(text),
            Ok(ValueText::Denoted) => match string_literal_value(text) {
                Some(denoted) => Ok(denoted),
                None => Err(ParseError::InvalidLiteral),
            },
        }
    }
}

/// Which text a literal of the given kind gives. Booleans and numbers give
/// what is written, suffix and all, and strings what they denote. Character,
/// byte and byte string literals are not supported, and a text that is no
/// literal is refused.
pub fn value_text(kind: Option<LiteralKind>) -> (rule: Result<ValueText, ParseError>)
    ensures
        rule == spec_value_text(kind),
{
    match kind {
        None => Err(ParseError::InvalidLiteral),
        Some(LiteralKind::Bool) => Ok(ValueText::Written),
        Some(LiteralKind::Integer) => Ok(ValueText::Written),
        Some(LiteralKind::Float) => Ok(ValueText::Written),
        Some(LiteralKind::String) => Ok(ValueText::Denoted),
        Some(LiteralKind::Char) => Err(ParseError::CharLiteral),
        Some(LiteralKind::Byte) => Err(ParseError::ByteLiteral),
        Some(LiteralKind::ByteString) => Err(ParseError::ByteLiteral),
    }
}

/// The text of the value that the literal written as `text` stands for.
pub fn literal_value(text: String) -> (value: Result<String, ParseError>)
    ensures
        match spec_literal_value(text@) {
            Ok(expected) => value is Ok && value->Ok_0@ == expected,
            Err(e) => value is Err && value->Err_0 == e,
        },
{
    if has_escape_hazard(text.as_str()) {
        return Err(ParseError::InvalidLiteral);
    }
    match value_text(parse_kind(text.as_str())) {
        Err(e) => Err(e),
        Ok(ValueText::Written) => Ok(text),
        Ok(ValueText::Denoted) => match parse_string_value(text.as_str()) {
            Some(denoted) => Ok(denoted),
            None => Err(ParseError::InvalidLiteral),
        },
    }
}

} // verus!
