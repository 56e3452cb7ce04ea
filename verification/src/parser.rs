//! The statement parser: a state machine over [`Token`]s that emits one
//! [`Cmd`] per statement.

use vstd::prelude::*;

use crate::command::{
    arg_views, cmd_views, target_view, Arg, ArgView, Cmd, CmdView, Target, TargetView,
};
use crate::error::ParseError;
use crate::token::{
    lexeme_views, lexemes, spec_token, stream_lexemes, token_views, LexemeView, Token, TokenView,
};

verus! {

/// What the parser expects next.
#[derive(Debug, Clone, Copy, PartialEq, Eq, Structural)]
pub enum ParseState {
    /// The program of a new statement.
    Cmd,
    /// An argument, a redirection marker or the end of the statement.
    Args,
    /// The target of the sink, after `>`.
    SetSink,
    /// The end of the statement, or `<`.
    DoneSetSink,
    /// The target of the source, after `<`.
    SetSource,
    /// The end of the statement, or `>`.
    DoneSetSource,
}

/// The mathematical value of a [`ShParser`]: the state of the machine and
/// what it has gathered of the statement at hand.
pub struct ParserView {
    pub state: ParseState,
    pub program: Option<Seq<char>>,
    pub args: Seq<ArgView>,
    pub sink: Option<TargetView>,
    pub source: Option<TargetView>,
}

impl ParserView {
    /// The machine before the first token of a statement.
    pub open spec fn initial() -> ParserView {
        ParserView {
            state: ParseState::Cmd,
            program: None,
            args: Seq::empty(),
            sink: None,
            source: None,
        }
    }

    /// A program has been read if and only if the machine is past the state
    /// that expects one.
    pub open spec fn wf(self) -> bool {
        (self.state == ParseState::Cmd) == (self.program is None)
    }

    /// The command gathered so far.
    pub open spec fn descriptor(self) -> CmdView
        recommends
            self.program is Some,
    {
        CmdView {
            program: self.program->0,
            args: self.args,
            sink: self.sink,
            source: self.source,
        }
    }

    /// The machine in another state, with what it has gathered unchanged.
    pub open spec fn goto(self, state: ParseState) -> ParserView {
        ParserView { state, ..self }
    }

    /// The transition of the machine on one token: the next machine and the
    /// command that the token completes, if it completes one, or the reason
    /// why the token cannot stand here.
    pub open spec fn step(self, token: TokenView) -> Result<
        (ParserView, Option<CmdView>),
        ParseError,
    > {
        match self.state {
            ParseState::Cmd => match token {
                TokenView::Value(text) => Ok(
                    (ParserView { state: ParseState::Args, program: Some(text), ..self }, None),
                ),
                _ => Err(ParseError::UnexpectedCommand),
            },
            ParseState::Args => match token {
                TokenView::Value(text) => Ok(
                    (ParserView { args: self.args.push(ArgView::Literal(text)), ..self }, None),
                ),
                TokenView::EndOfLine => Ok((ParserView::initial(), Some(self.descriptor()))),
                TokenView::Expr(stream) => Ok(
                    (ParserView { args: self.args.push(ArgView::Expr(stream)), ..self }, None),
                ),
                TokenView::Sink => Ok((self.goto(ParseState::SetSink), None)),
                TokenView::Source => Ok((self.goto(ParseState::SetSource), None)),
            },
            ParseState::SetSink => if self.sink is Some {
                Err(ParseError::SinkSetTwice)
            } else {
                match token {
                    TokenView::Value(name) => Ok(
                        (
                            ParserView {
                                state: ParseState::DoneSetSink,
                                sink: Some(TargetView::File(name)),
                                ..self
                            },
                            None,
                        ),
                    ),
                    TokenView::Expr(stream) => Ok(
                        (
                            ParserView {
                                state: ParseState::DoneSetSink,
                                sink: Some(TargetView::Expr(stream)),
                                ..self
                            },
                            None,
                        ),
                    ),
                    _ => Err(ParseError::UnexpectedToken),
                }
            },
            ParseState::SetSource => if self.source is Some {
                Err(ParseError::SourceSetTwice)
            } else {
                match token {
                    TokenView::Value(name) => Ok(
                        (
                            ParserView {
                                state: ParseState::DoneSetSource,
                                source: Some(TargetView::File(name)),
                                ..self
                            },
                            None,
                        ),
                    ),
                    TokenView::Expr(stream) => Ok(
                        (
                            ParserView {
                                state: ParseState::DoneSetSource,
                                source: Some(TargetView::Expr(stream)),
                                ..self
                            },
                            None,
                        ),
                    ),
                    _ => Err(ParseError::UnexpectedToken),
                }
            },
            ParseState::DoneSetSink => match token {
                TokenView::EndOfLine => Ok((ParserView::initial(), Some(self.descriptor()))),
                TokenView::Source => Ok((self.goto(ParseState::SetSource), None)),
                _ => Err(ParseError::UnexpectedToken),
            },
            ParseState::DoneSetSource => match token {
                TokenView::EndOfLine => Ok((ParserView::initial(), Some(self.descriptor()))),
                TokenView::Sink => Ok((self.goto(ParseState::SetSink), None)),
                _ => Err(ParseError::UnexpectedToken),
            },
        }
    }
}

impl ParserView {
    /// The machine after a sequence of tokens, and the commands that they
    /// completed, in order; or the reason why the first token that cannot
    /// stand where it does is refused.
    pub open spec fn run(self, tokens: Seq<TokenView>) -> Result<
        (ParserView, Seq<CmdView>),
        ParseError,
    >
        decreases tokens.len(),
    {
        if tokens.len() == 0 {
            Ok((self, Seq::empty()))
        } else {
            match self.run(tokens.drop_last()) {
                Err(e) => Err(e),
                Ok((machine, cmds)) => match machine.step(tokens.last()) {
                    Err(e) => Err(e),
                    Ok((next, emitted)) => Ok((next, with_emitted(cmds, emitted))),
                },
            }
        }
    }

    /// The command of a last statement that no `;` ended, if there is one.
    pub open spec fn finish(self) -> Option<CmdView> {
        if self.program is Some {
            Some(self.descriptor())
        } else {
            None
        }
    }
}

impl ParserView {
    /// The transition of the machine on one token tree of the host language:
    /// that on the token that the tree stands for.
    pub open spec fn step_lexeme(self, lexeme: LexemeView) -> Result<
        (ParserView, Option<CmdView>),
        ParseError,
    > {
        match spec_token(lexeme) {
            Err(e) => Err(e),
            Ok(token) => self.step(token),
        }
    }

    /// The machine after a sequence of token trees, and the commands that
    /// they completed, in order; or the reason why the first tree that stands
    /// for no token, or for one that cannot stand where it does, is refused.
    pub open spec fn read(self, lexemes: Seq<LexemeView>) -> Result<
        (ParserView, Seq<CmdView>),
        ParseError,
    >
        decreases lexemes.len(),
    {
        if lexemes.len() == 0 {
            Ok((self, Seq::empty()))
        } else {
            match self.read(lexemes.drop_last()) {
                Err(e) => Err(e),
                Ok((machine, cmds)) => match machine.step_lexeme(lexemes.last()) {
                    Err(e) => Err(e),
                    Ok((next, emitted)) => Ok((next, with_emitted(cmds, emitted))),
                },
            }
        }
    }
}

/// The commands so far, and one more where a token completed it.
pub open spec fn with_emitted(cmds: Seq<CmdView>, emitted: Option<CmdView>) -> Seq<CmdView> {
    match emitted {
        Some(cmd) => cmds.push(cmd),
        None => cmds,
    }
}

/// The commands that a whole token sequence describes, in order: one for each
/// statement that `;` ends, and one for a last statement that it does not end.
/// A sequence that is not made of statements has none: the first token that
/// cannot stand where it does gives the error.
pub open spec fn spec_parse(tokens: Seq<TokenView>) -> Result<Seq<CmdView>, ParseError> {
    match ParserView::initial().run(tokens) {
        Err(e) => Err(e),
        Ok((machine, cmds)) => Ok(with_emitted(cmds, machine.finish())),
    }
}

/// The commands that the token trees of a whole macro input describe, in
/// order, or the reason why the first tree that cannot stand where it does is
/// refused.
pub open spec fn spec_cmd(lexemes: Seq<LexemeView>) -> Result<Seq<CmdView>, ParseError> {
    match ParserView::initial().read(lexemes) {
        Err(e) => Err(e),
        Ok((machine, cmds)) => Ok(with_emitted(cmds, machine.finish())),
    }
}

/// An error on the way stays: where a beginning of the tokens is refused, the
/// whole of them is refused for the same reason.
pub proof fn lemma_run_refused_stays(machine: ParserView, tokens: Seq<TokenView>, n: int)
    requires
        0 <= n <= tokens.len(),
        machine.run(tokens.take(n)) is Err,
    ensures
        machine.run(tokens) == machine.run(tokens.take(n)),
    decreases tokens.len() - n,
{
    if n == tokens.len() {
        assert(tokens.take(n) =~= tokens);
    } else {
        assert(tokens.take(n + 1).drop_last() =~= tokens.take(n));
        lemma_run_refused_stays(machine, tokens, n + 1);
    }
}

/// The outcome of feeding one token to the parser.
#[must_use]
#[derive(Debug)]
pub enum ParseResult {
    /// The statement goes on.
    KeepGoing,
    /// The token ended a statement: here is its command.
    Done(Cmd),
}

impl View for ParseResult {
    type V = Option<CmdView>;

    open spec fn view(&self) -> Option<CmdView> {
        match self {
            ParseResult::KeepGoing => None,
            ParseResult::Done(cmd) => Some(cmd@),
        }
    }
}

/// The parser of statements. It is fed one token at a time.
#[derive(Debug)]
pub struct ShParser {
    state: ParseState,
    cmd: Option<String>,
    args: Vec<Arg>,
    sink: Option<Target>,
    source: Option<Target>,
}

impl View for ShParser {
    type V = ParserView;

    closed spec fn view(&self) -> ParserView {
        ParserView {
            state: self.state,
            program: match self.cmd {
                Some(text) => Some(text@),
                None => None,
            },
            args: arg_views(self.args@),
            sink: target_view(self.sink),
            source: target_view(self.source),
        }
    }
}

impl Default for ShParser {
    fn default() -> (parser: Self)
        ensures
            parser@ == ParserView::initial(),
    {
        Self::new()
    }
}

impl ShParser {
    #[verifier::type_invariant]
    spec fn inv(self) -> bool {
        self.state != ParseState::Cmd ==> self.cmd is Some
    }

    /// A parser at the start of a statement.
    pub fn new() -> (parser: Self)
        ensures
            parser@ == ParserView::initial(),
    {
        let parser = Self {
            state: ParseState::Cmd,
            cmd: None,
            args: Vec::new(),
            sink: None,
            source: None,
        };
        assert(parser@.args =~= Seq::empty());
        parser
    }

    /// Feeds the next token of the input to the parser.
    ///
    /// The parser makes the transition that [`ParserView::step`] defines. A
    /// token that ends a statement hands out its command and leaves the parser
    /// at the start of the next statement. A token that cannot stand here is
    /// refused, and the parser stays as it was.
    pub fn feed(&mut self, token: Token) -> (result: Result<ParseResult, ParseError>)
        ensures
            match old(self)@.step(token@) {
                Ok((next, emitted)) => final(self)@ == next && result is Ok && result->Ok_0@
                    == emitted,
                Err(e) => final(self)@ == old(self)@ && result is Err && result->Err_0 == e,
            },
    {
        proof {
            use_type_invariant(&*self);
        }
        match self.state {
            ParseState::Cmd => {
                match token {
                    Token::Value(value) => {
                        self.cmd = Some(value);
                        self.state = ParseState::Args;
                    },
                    _ => {
                        return Err(ParseError::UnexpectedCommand);
                    },
                }
            },
            ParseState::Args => match token {
                Token::Value(value) => {
                    self.push_arg(Arg::Literal(value));
                },
                Token::EndOfLine => {
                    return Ok(ParseResult::Done(self.into_sh()));
                },
                Token::Expr(stream) => {
                    self.push_arg(Arg::Expr(stream));
                },
                Token::Sink => {
                    self.state = ParseState::SetSink;
                },
                Token::Source => {
                    self.state = ParseState::SetSource;
                },
            },
            ParseState::SetSink => {
                if self.sink.is_some() {
                    return Err(ParseError::SinkSetTwice);
                }
                match token {
                    Token::Value(name) => {
                        self.sink = Some(Target::File(name));
                    },
                    Token::Expr(stream) => {
                        self.sink = Some(Target::Expr(stream));
                    },
                    _ => {
                        return Err(ParseError::UnexpectedToken);
                    },
                }
                self.state = ParseState::DoneSetSink;
            },
            ParseState::SetSource => {
                if self.source.is_some() {
                    return Err(ParseError::SourceSetTwice);
                }
                match token {
                    Token::Value(name) => {
                        self.source = Some(Target::File(name));
                    },
                    Token::Expr(stream) => {
                        self.source = Some(Target::Expr(stream));
                    },
                    _ => {
                        return Err(ParseError::UnexpectedToken);
                    },
                }
                self.state = ParseState::DoneSetSource;
            },
            ParseState::DoneSetSink => match token {
                Token::EndOfLine => {
                    return Ok(ParseResult::Done(self.into_sh()));
                },
                Token::Source => {
                    self.state = ParseState::SetSource;
                },
                _ => {
                    return Err(ParseError::UnexpectedToken);
                },
            },
            ParseState::DoneSetSource => match token {
                Token::EndOfLine => {
                    return Ok(ParseResult::Done(self.into_sh()));
                },
                Token::Sink => {
                    self.state = ParseState::SetSink;
                },
                _ => {
                    return Err(ParseError::UnexpectedToken);
                },
            },
        }
        Ok(ParseResult::KeepGoing)
    }

    /// Ends the input: hands out the command of a last statement that no `;`
    /// ended, if there is one.
    pub fn finish(self) -> (last: Option<Cmd>)
        ensures
            self@.program is Some ==> last is Some && last->0@ == self@.descriptor(),
            self@.program is None ==> last is None,
    {
        let mut parser = self;
        if parser.cmd.is_some() {
            Some(parser.into_sh())
        } else {
            None
        }
    }

    /// Appends an argument to the statement at hand.
    fn push_arg(&mut self, arg: Arg)
        ensures
            final(self)@ == (ParserView { args: old(self)@.args.push(arg@), ..old(self)@ }),
    {
        // The arguments leave the parser while they grow: a field of a type
        // with an invariant cannot be lent to `Vec::push`.
        proof {
            use_type_invariant(&*self);
        }
        let mut args: Vec<Arg> = Vec::new();
        std::mem::swap(&mut self.args, &mut args);
        args.push(arg);
        self.args = args;
        assert(self@.args =~= old(self)@.args.push(arg@));
    }

    /// Takes the command gathered so far out of the parser, which is left at
    /// the start of a statement.
    fn into_sh(&mut self) -> (cmd: Cmd)
        requires
            old(self)@.program is Some,
        ensures
            cmd@ == old(self)@.descriptor(),
            final(self)@ == ParserView::initial(),
    {
        let mut parser = ShParser::new();
        std::mem::swap(self, &mut parser);
        match parser.cmd {
            Some(program) => Cmd {
                program,
                args: parser.args,
                sink: parser.sink,
                source: parser.source,
            },
            None => vstd::pervasive::unreached(),
        }
    }
}

/// An error on the way stays, for token trees as for tokens.
pub proof fn lemma_read_refused_stays(machine: ParserView, lexemes: Seq<LexemeView>, n: int)
    requires
        0 <= n <= lexemes.len(),
        machine.read(lexemes.take(n)) is Err,
    ensures
        machine.read(lexemes) == machine.read(lexemes.take(n)),
    decreases lexemes.len() - n,
{
    if n == lexemes.len() {
        assert(lexemes.take(n) =~= lexemes);
    } else {
        assert(lexemes.take(n + 1).drop_last() =~= lexemes.take(n));
        lemma_read_refused_stays(machine, lexemes, n + 1);
    }
}

/// Parses a whole token sequence into the commands that it describes.
pub fn parse(tokens: Vec<Token>) -> (result: Result<Vec<Cmd>, ParseError>)
    ensures
        match spec_parse(token_views(tokens@)) {
            Ok(cmds) => result is Ok && cmd_views(result->Ok_0@) == cmds,
            Err(e) => result is Err && result->Err_0 == e,
        },
{
    let ghost all = token_views(tokens@);
    let mut parser = ShParser::new();
    let mut cmds: Vec<Cmd> = Vec::new();
    assert(cmd_views(cmds@) =~= Seq::empty());
    assert(all.take(0) =~= Seq::empty());
    for token in it: tokens.into_iter()
        invariant
            it.seq() == tokens@,
            all == token_views(tokens@),
            ParserView::initial().run(all.take(it.index() as int)) == Ok::<_, ParseError>(
                (parser@, cmd_views(cmds@)),
            ),
    {
        let ghost i = it.index() as int;
        let ghost before = cmd_views(cmds@);
        assert(all.take(i + 1).drop_last() =~= all.take(i));
        assert(all.take(i + 1).last() == token@);
        match parser.feed(token) {
            Err(e) => {
                proof {
                    lemma_run_refused_stays(ParserView::initial(), all, i + 1);
                }
                return Err(e);
            },
            Ok(ParseResult::KeepGoing) => {},
            Ok(ParseResult::Done(cmd)) => {
                cmds.push(cmd);
                assert(cmd_views(cmds@) =~= before.push(cmd@));
            },
        }
    }
    assert(all.take(tokens@.len() as int) =~= all);
    let ghost before = cmd_views(cmds@);
    match parser.finish() {
        Some(cmd) => {
            cmds.push(cmd);
            assert(cmd_views(cmds@) =~= before.push(cmd@));
        },
        None => {},
    }
    Ok(cmds)
}

/// Parses the input of the macro: the token stream of one or more
/// statements. Each token tree is read as a token ([`Token::from_lexeme`]) and
/// fed to the parser, in order, and the first one that is refused ends the
/// parse.
pub fn cmd(stream: proc_macro2::TokenStream) -> (result: Result<Vec<Cmd>, ParseError>)
    ensures
        match spec_cmd(stream_lexemes(stream)) {
            Ok(cmds) => result is Ok && cmd_views(result->Ok_0@) == cmds,
            Err(e) => result is Err && result->Err_0 == e,
        },
{
    let trees = lexemes(&stream);
    let ghost all = lexeme_views(trees@);
    let mut parser = ShParser::new();
    let mut cmds: Vec<Cmd> = Vec::new();
    assert(cmd_views(cmds@) =~= Seq::empty());
    assert(all.take(0) =~= Seq::empty());
    for tree in it: trees.into_iter()
        invariant
            it.seq() == trees@,
            all == lexeme_views(trees@),
            all == stream_lexemes(stream),
            ParserView::initial().read(all.take(it.index() as int)) == Ok::<_, ParseError>(
                (parser@, cmd_views(cmds@)),
            ),
    {
        let ghost i = it.index() as int;
        let ghost before = cmd_views(cmds@);
        assert(all.take(i + 1).drop_last() =~= all.take(i));
        assert(all.take(i + 1).last() == tree@);
        let token = match Token::from_lexeme(tree) {
            Ok(token) => token,
            Err(e) => {
                proof {
                    lemma_read_refused_stays(ParserView::initial(), all, i + 1);
                }
                return Err(e);
            },
        };
        match parser.feed(token) {
            Err(e) => {
                proof {
                    lemma_read_refused_stays(ParserView::initial(), all, i + 1);
                }
                return Err(e);
            },
            Ok(ParseResult::KeepGoing) => {},
            Ok(ParseResult::Done(cmd)) => {
                cmds.push(cmd);
                assert(cmd_views(cmds@) =~= before.push(cmd@));
            },
        }
    }
    assert(all.take(trees@.len() as int) =~= all);
    let ghost before = cmd_views(cmds@);
    match parser.finish() {
        Some(cmd) => {
            cmds.push(cmd);
            assert(cmd_views(cmds@) =~= before.push(cmd@));
        },
        None => {},
    }
    Ok(cmds)
}

} // verus!
