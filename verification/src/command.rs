//! Commands as the parser hands them out.

use vstd::prelude::*;

verus! {

/// One argument of a command.
#[derive(Debug)]
pub enum Arg {
    /// Text that is passed as it stands.
    Literal(String),
    /// An expression of the host language, whose value is passed.
    Expr(proc_macro2::TokenStream),
}

/// Where a redirected stream goes to or comes from.
#[derive(Debug)]
pub enum Target {
    /// A file, given by name.
    File(String),
    /// An expression of the host language that refers to a buffer.
    Expr(proc_macro2::TokenStream),
}

/// One command: the program, its arguments in order, and its redirections.
#[derive(Debug)]
pub struct Cmd {
    pub program: String,
    pub args: Vec<Arg>,
    pub sink: Option<Target>,
    pub source: Option<Target>,
}

/// The mathematical value of an [`Arg`].
pub enum ArgView {
    Literal(Seq<char>),
    Expr(proc_macro2::TokenStream),
}

/// The mathematical value of a [`Target`].
pub enum TargetView {
    File(Seq<char>),
    Expr(proc_macro2::TokenStream),
}

/// The mathematical value of a [`Cmd`].
pub struct CmdView {
    pub program: Seq<char>,
    pub args: Seq<ArgView>,
    pub sink: Option<TargetView>,
    pub source: Option<TargetView>,
}

impl View for Arg {
    type V = ArgView;

    open spec fn view(&self) -> ArgView {
        match self {
            Arg::Literal(text) => ArgView::Literal(text@),
            Arg::Expr(stream) => ArgView::Expr(*stream),
        }
    }
}

impl View for Target {
    type V = TargetView;

    open spec fn view(&self) -> TargetView {
        match self {
            Target::File(name) => TargetView::File(name@),
            Target::Expr(stream) => TargetView::Expr(*stream),
        }
    }
}

/// The values of a sequence of arguments, in order.
pub open spec fn arg_views(args: Seq<Arg>) -> Seq<ArgView> {
    args.map_values(|a: Arg| a@)
}

/// The value of an optional target.
pub open spec fn target_view(target: Option<Target>) -> Option<TargetView> {
    match target {
        Some(t) => Some(t@),
        None => None,
    }
}

impl View for Cmd {
    type V = CmdView;

    open spec fn view(&self) -> CmdView {
        CmdView {
            program: self.program@,
            args: arg_views(self.args@),
            sink: target_view(self.sink),
            source: target_view(self.source),
        }
    }
}

/// The values of a sequence of commands, in order.
pub open spec fn cmd_views(cmds: Seq<Cmd>) -> Seq<CmdView> {
    cmds.map_values(|c: Cmd| c@)
}

} // verus!
