//! The tokens of the notation, and the token trees of the host language
//! that they are read from.

use vstd::prelude::*;

use crate::error::ParseError;
use crate::literal::{literal_value, spec_literal_value};

verus! {

/// `proc_macro2::TokenStream`: the tokens inside a group. They stand for an
/// expression of the host language, and the library hands them on unread.
#[verifier::external_type_specification]
#[verifier::external_body]
pub struct ExTokenStream(proc_macro2::TokenStream);

/// One token tree of the host language, as far as a statement looks into it.
#[derive(Debug)]
pub enum Lexeme {
    /// A delimited group, with the tokens inside the delimiters.
    Group(proc_macro2::TokenStream),
    /// An identifier or keyword, as written.
    Ident(String),
    /// A single punctuation character.
    Punct(char),
    /// A literal, as written.
    Literal(String),
}

/// The mathematical value of a [`Lexeme`].
pub enum LexemeView {
    Group(proc_macro2::TokenStream),
    Ident(Seq<char>),
    Punct(char),
    Literal(Seq<char>),
}

impl View for Lexeme {
    type V = LexemeView;

    open spec fn view(&self) -> LexemeView {
        match self {
            Lexeme::Group(stream) => LexemeView::Group(*stream),
            Lexeme::Ident(text) => LexemeView::Ident(text@),
            Lexeme::Punct(c) => LexemeView::Punct(*c),
            Lexeme::Literal(text) => LexemeView::Literal(text@),
        }
    }
}

/// The values of a sequence of token trees, in order.
pub open spec fn lexeme_views(lexemes: Seq<Lexeme>) -> Seq<LexemeView> {
    lexemes.map_values(|l: Lexeme| l@)
}

/// The token trees that a token stream is made of, in order: what iterating
/// over the stream hands out.
pub uninterp spec fn stream_lexemes(stream: proc_macro2::TokenStream) -> Seq<LexemeView>;

/// Walks the token stream with `proc_macro2`'s iterator and hands out each
/// token tree in turn: of a group its inner stream (`Group::stream`), of an
/// identifier and of a literal the text (`to_string`), of a punctuation its
/// character (`Punct::as_char`). The trees of a stream have the name
/// [`stream_lexemes`]; nothing else is claimed of them.
#[verifier::external_body]
pub(crate) fn lexemes(stream: &proc_macro2::TokenStream) -> (trees: Vec<Lexeme>)
    ensures
        lexeme_views(trees@) == stream_lexemes(*stream),
{
    stream.clone().into_iter().map(|tree| match tree {
        proc_macro2::TokenTree::Group(group) => Lexeme::Group(group.stream()),
        proc_macro2::TokenTree::Ident(ident) => Lexeme::Ident(ident.to_string()),
        proc_macro2::TokenTree::Punct(punct) => Lexeme::Punct(punct.as_char()),
        proc_macro2::TokenTree::Literal(literal) => Lexeme::Literal(literal.to_string()),
    }).collect()
}

/// One lexical unit of a statement.
#[derive(Debug)]
pub enum Token {
    /// An identifier, or a literal in its textual form.
    Value(String),
    /// The end-of-statement marker, `;`.
    EndOfLine,
    /// A grouped expression of the host language.
    Expr(proc_macro2::TokenStream),
    /// The sink marker, `>`.
    Sink,
    /// The source marker, `<`.
    Source,
}

/// The mathematical value of a [`Token`].
pub enum TokenView {
    Value(Seq<char>),
    EndOfLine,
    Expr(proc_macro2::TokenStream),
    Sink,
    Source,
}

impl View for Token {
    type V = TokenView;

    open spec fn view(&self) -> TokenView {
        match self {
            Token::Value(text) => TokenView::Value(text@),
            Token::EndOfLine => TokenView::EndOfLine,
            Token::Expr(stream) => TokenView::Expr(*stream),
            Token::Sink => TokenView::Sink,
            Token::Source => TokenView::Source,
        }
    }
}

/// The token that a token tree stands for in a statement, or the reason why
/// it stands for none.
pub open spec fn spec_token(lexeme: LexemeView) -> Result<TokenView, ParseError> {
    match lexeme {
        LexemeView::Group(stream) => Ok(TokenView::Expr(stream)),
        LexemeView::Ident(text) => Ok(TokenView::Value(text)),
        LexemeView::Punct(c) => if c == ';' {
            Ok(TokenView::EndOfLine)
        } else if c == '>' {
            Ok(TokenView::Sink)
        } else if c == '<' {
            Ok(TokenView::Source)
        } else {
            Err(ParseError::UnexpectedPunct(c))
        },
        LexemeView::Literal(text) => match spec_literal_value(text) {
            Ok(value) => Ok(TokenView::Value(value)),
            Err(e) => Err(e),
        },
    }
}

impl Token {
    /// Reads a token tree of the host language as a token of a statement.
    ///
    /// A group is an expression and an identifier a value. Of the
    /// punctuation only `;`, `>` and `<` have a meaning. A literal is a value
    /// in its textual form: see [`literal_value`].
    pub fn from_lexeme(lexeme: Lexeme) -> (token: Result<Token, ParseError>)
        ensures
            match spec_token(lexeme@) {
                Ok(expected) => token is Ok && token->Ok_0@ == expected,
                Err(e) => token is Err && token->Err_0 == e,
            },
    {
        match lexeme {
            Lexeme::Group(stream) => Ok(Token::Expr(stream)),
            Lexeme::Ident(text) => Ok(Token::Value(text)),
            Lexeme::Punct(c) => if c == ';' {
                Ok(Token::EndOfLine)
            } else if c == '>' {
                Ok(Token::Sink)
            } else if c == '<' {
                Ok(Token::Source)
            } else {
                Err(ParseError::UnexpectedPunct(c))
            },
            Lexeme::Literal(text) => match literal_value(text) {
                Ok(value) => Ok(Token::Value(value)),
                Err(e) => Err(e),
            },
        }
    }
}

/// The values of a sequence of tokens, in order.
pub open spec fn token_views(tokens: Seq<Token>) -> Seq<TokenView> {
    tokens.map_values(|t: Token| t@)
}

} // verus!
