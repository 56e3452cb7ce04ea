//! From a parsed command to one that can be made to run: its redirections
//! have to name buffers of the caller.

use vstd::prelude::*;

use crate::error::{BuildError, Redirection};
use crate::command::{arg_views, target_view, Arg, ArgView, Cmd, CmdView, Target, TargetView};
use crate::token::{lexeme_views, lexemes, stream_lexemes, Lexeme, LexemeView};

verus! {

/// A command whose redirections, where it has any, are expressions that
/// refer to a buffer.
#[derive(Debug)]
pub struct Invocation {
    pub program: String,
    pub args: Vec<Arg>,
    pub sink: Option<proc_macro2::TokenStream>,
    pub source: Option<proc_macro2::TokenStream>,
}

/// The mathematical value of an [`Invocation`].
pub struct InvocationView {
    pub program: Seq<char>,
    pub args: Seq<ArgView>,
    pub sink: Option<proc_macro2::TokenStream>,
    pub source: Option<proc_macro2::TokenStream>,
}

impl View for Invocation {
    type V = InvocationView;

    open spec fn view(&self) -> InvocationView {
        InvocationView {
            program: self.program@,
            args: arg_views(self.args@),
            sink: self.sink,
            source: self.source,
        }
    }
}

/// Whether the token tree is an identifier that can name a buffer: any but
/// the keyword `mut`.
pub open spec fn spec_is_name(tree: LexemeView) -> bool {
    tree is Ident && tree != LexemeView::Ident("mut"@)
}

/// Whether the token trees are written like a reference to a buffer: one
/// name, alone or behind `&` or `& mut`.
pub open spec fn spec_is_reference(trees: Seq<LexemeView>) -> bool {
    ||| trees.len() == 1 && spec_is_name(trees[0])
    ||| trees.len() == 2 && trees[0] == LexemeView::Punct('&') && spec_is_name(trees[1])
    ||| trees.len() == 3 && trees[0] == LexemeView::Punct('&') && trees[1] == LexemeView::Ident(
        "mut"@,
    ) && spec_is_name(trees[2])
}

/// The buffer expression of a redirection, if the stream is redirected, or
/// the reason why the redirection cannot be served.
pub open spec fn spec_buffer(target: Option<TargetView>, stream: Redirection) -> Result<
    Option<proc_macro2::TokenStream>,
    BuildError,
> {
    match target {
        None => Ok(None),
        Some(TargetView::File(_)) => Err(BuildError::NotImplemented(stream)),
        Some(TargetView::Expr(group)) => if spec_is_reference(stream_lexemes(group)) {
            Ok(Some(group))
        } else {
            Err(BuildError::ExpectedIdentifier(stream))
        },
    }
}

/// The invocation that a command asks for, or the reason why it cannot be
/// served. The sink is looked at before the source.
pub open spec fn spec_invocation(cmd: CmdView) -> Result<InvocationView, BuildError> {
    match spec_buffer(cmd.sink, Redirection::Sink) {
        Err(e) => Err(e),
        Ok(sink) => match spec_buffer(cmd.source, Redirection::Source) {
            Err(e) => Err(e),
            Ok(source) => Ok(
                InvocationView { program: cmd.program, args: cmd.args, sink, source },
            ),
        },
    }
}

fn is_name(tree: &Lexeme) -> (yes: bool)
    ensures
        yes == spec_is_name(tree@),
{
    match tree {
        Lexeme::Ident(_) => !is_mut(tree),
        _ => false,
    }
}

fn is_ampersand(tree: &Lexeme) -> (yes: bool)
    ensures
        yes == (tree@ == LexemeView::Punct('&')),
{
    match tree {
        Lexeme::Punct(c) => *c == '&',
        _ => false,
    }
}

fn is_mut(tree: &Lexeme) -> (yes: bool)
    ensures
        yes == (tree@ == LexemeView::Ident("mut"@)),
{
    match tree {
        Lexeme::Ident(text) => *text == "mut".to_owned(),
        _ => false,
    }
}

/// Whether the token trees are written like a reference to a buffer: one
/// name, alone or behind `&` or `& mut`.
pub fn is_reference(trees: &Vec<Lexeme>) -> (yes: bool)
    ensures
        yes == spec_is_reference(lexeme_views(trees@)),
{
    let n = trees.len();
    if n == 1 {
        is_name(&trees[0])
    } else if n == 2 {
        is_ampersand(&trees[0]) && is_name(&trees[1])
    } else if n == 3 {
        is_ampersand(&trees[0]) && is_mut(&trees[1]) && is_name(&trees[2])
    } else {
        false
    }
}

/// The buffer expression of a redirection, if the stream is redirected.
/// A redirection to or from a file is not implemented, and a group that is
/// not written like a reference to a buffer is refused.
pub fn buffer(target: Option<Target>, stream: Redirection) -> (result: Result<
    Option<proc_macro2::TokenStream>,
    BuildError,
>)
    ensures
        result == spec_buffer(target_view(target), stream),
{
    match target {
        None => Ok(None),
        Some(Target::File(_)) => Err(BuildError::NotImplemented(stream)),
        Some(Target::Expr(group)) => {
            let trees = lexemes(&group);
            if is_reference(&trees) {
                Ok(Some(group))
            } else {
                Err(BuildError::ExpectedIdentifier(stream))
            }
        },
    }
}

impl Cmd {
    /// Turns the command into the invocation that it asks for. No
    /// redirection is dropped on the way: one that cannot be served fails
    /// the command, the sink before the source.
    pub fn invocation(self) -> (result: Result<Invocation, BuildError>)
        ensures
            match spec_invocation(self@) {
                Ok(expected) => result is Ok && result->Ok_0@ == expected,
                Err(e) => result is Err && result->Err_0 == e,
            },
    {
        let Cmd { program, args, sink, source } = self;
        let sink = match buffer(sink, Redirection::Sink) {
            Ok(sink) => sink,
            Err(e) => {
                return Err(e);
            },
        };
        let source = match buffer(source, Redirection::Source) {
            Ok(source) => source,
            Err(e) => {
                return Err(e);
            },
        };
        Ok(Invocation { program, args, sink, source })
    }
}

} // verus!
