//! What holds of every parse: theorems about [`spec_parse`].

use vstd::prelude::*;

use crate::command::{ArgView, CmdView, TargetView};
use crate::error::{ParseError, Redirection};
use crate::parser::{
    lemma_run_refused_stays, spec_cmd, spec_parse, with_emitted, ParseState, ParserView,
};
use crate::token::{spec_token, LexemeView, TokenView};

verus! {

/// The number of end-of-statement markers among the tokens.
pub open spec fn count_markers(tokens: Seq<TokenView>) -> nat
    decreases tokens.len(),
{
    if tokens.len() == 0 {
        0
    } else {
        count_markers(tokens.drop_last()) + if tokens.last() is EndOfLine {
            1nat
        } else {
            0nat
        }
    }
}

/// Whether the tokens end inside a statement: there is a last token, and it
/// is no end-of-statement marker.
pub open spec fn ends_unterminated(tokens: Seq<TokenView>) -> bool {
    tokens.len() > 0 && !(tokens.last() is EndOfLine)
}

/// The value tokens that stand for the given texts, in order.
pub open spec fn value_tokens(values: Seq<Seq<char>>) -> Seq<TokenView> {
    values.map_values(|text: Seq<char>| TokenView::Value(text))
}

/// The literal arguments that stand for the given texts, in order.
pub open spec fn literal_args(values: Seq<Seq<char>>) -> Seq<ArgView> {
    values.map_values(|text: Seq<char>| ArgView::Literal(text))
}

/// A command is complete at an end-of-statement marker, and nowhere else: a
/// transition hands out a command exactly on the marker, and exactly then
/// the machine stands at the start of a statement again. The command has the
/// program that the machine has read.
pub proof fn law_commands_end_at_markers(machine: ParserView, token: TokenView)
    requires
        machine.wf(),
        machine.step(token) is Ok,
    ensures
        ({
            let (next, emitted) = machine.step(token)->Ok_0;
            &&& next.wf()
            &&& emitted is Some <==> token is EndOfLine
            &&& next.state == ParseState::Cmd <==> token is EndOfLine
            &&& emitted matches Some(cmd) ==> machine.program == Some(cmd.program)
        }),
{
}

/// A successful run from the start of the input has emitted one command per
/// marker, and stands at the start of a statement exactly when the tokens do
/// not end inside one. It has read a program exactly when it stands inside a
/// statement.
pub proof fn lemma_run_counts(tokens: Seq<TokenView>)
    requires
        ParserView::initial().run(tokens) is Ok,
    ensures
        ({
            let (machine, cmds) = ParserView::initial().run(tokens)->Ok_0;
            &&& cmds.len() == count_markers(tokens)
            &&& machine.wf()
            &&& machine.state != ParseState::Cmd <==> ends_unterminated(tokens)
        }),
    decreases tokens.len(),
{
    if tokens.len() > 0 {
        lemma_run_counts(tokens.drop_last());
    }
}

/// Statement splitting: a token sequence that parses has one command for
/// each end-of-statement marker, and one more where it ends inside a
/// statement. An empty sequence has none.
pub proof fn law_statement_splitting(tokens: Seq<TokenView>)
    requires
        spec_parse(tokens) is Ok,
    ensures
        spec_parse(tokens)->Ok_0.len() == count_markers(tokens) + if ends_unterminated(tokens) {
            1nat
        } else {
            0nat
        },
        tokens.len() == 0 ==> spec_parse(tokens)->Ok_0.len() == 0,
{
    lemma_run_counts(tokens);
}

/// Whether the token is written where an argument stands: a value or an
/// expression.
pub open spec fn is_argument(token: TokenView) -> bool {
    token is Value || token is Expr
}

/// The argument that a value or an expression gives.
pub open spec fn argument_of(token: TokenView) -> ArgView {
    match token {
        TokenView::Value(text) => ArgView::Literal(text),
        TokenView::Expr(stream) => ArgView::Expr(stream),
        _ => arbitrary(),
    }
}

/// The arguments that values and expressions give, in order.
pub open spec fn arguments_of(tokens: Seq<TokenView>) -> Seq<ArgView> {
    tokens.map_values(|token: TokenView| argument_of(token))
}

/// After a program and arguments the machine holds exactly these, and has
/// emitted nothing.
proof fn lemma_run_arguments(program: Seq<char>, arguments: Seq<TokenView>)
    requires
        forall|i: int| 0 <= i < arguments.len() ==> is_argument(#[trigger] arguments[i]),
    ensures
        ParserView::initial().run(seq![TokenView::Value(program)] + arguments) == Ok::<
            _,
            ParseError,
        >(
            (
                ParserView {
                    state: ParseState::Args,
                    program: Some(program),
                    args: arguments_of(arguments),
                    sink: None,
                    source: None,
                },
                Seq::<CmdView>::empty(),
            ),
        ),
    decreases arguments.len(),
{
    let head = seq![TokenView::Value(program)];
    let tokens = head + arguments;
    if arguments.len() == 0 {
        assert(tokens.drop_last() =~= Seq::empty());
        assert(arguments_of(arguments) =~= Seq::empty());
        reveal_with_fuel(ParserView::run, 2);
    } else {
        let front = arguments.drop_last();
        lemma_run_arguments(program, front);
        assert(tokens.drop_last() =~= head + front);
        assert(tokens.last() == arguments.last());
        assert(is_argument(arguments[arguments.len() - 1]));
        assert(arguments_of(arguments) =~= arguments_of(front).push(
            argument_of(arguments.last()),
        ));
    }
}

/// Argument fidelity: a program followed by arguments, with or without an
/// end-of-statement marker behind them, parses to one command, which has the
/// given program, no redirection, and one argument for each given token, in
/// the given order: none is dropped, merged with an equal one, or moved.
pub proof fn law_arguments(program: Seq<char>, arguments: Seq<TokenView>)
    requires
        forall|i: int| 0 <= i < arguments.len() ==> is_argument(#[trigger] arguments[i]),
    ensures
        ({
            let statement = seq![TokenView::Value(program)] + arguments;
            let cmd = CmdView {
                program,
                args: arguments_of(arguments),
                sink: None,
                source: None,
            };
            &&& spec_parse(statement) == Ok::<_, ParseError>(seq![cmd])
            &&& spec_parse(statement.push(TokenView::EndOfLine)) == Ok::<_, ParseError>(seq![cmd])
            &&& cmd.args.len() == arguments.len()
            &&& forall|i: int|
                0 <= i < arguments.len() ==> cmd.args[i] == argument_of(#[trigger] arguments[i])
        }),
{
    let statement = seq![TokenView::Value(program)] + arguments;
    let cmd = CmdView { program, args: arguments_of(arguments), sink: None, source: None };
    lemma_run_arguments(program, arguments);
    assert(Seq::<CmdView>::empty().push(cmd) =~= seq![cmd]);
    let ended = statement.push(TokenView::EndOfLine);
    assert(ended.drop_last() =~= statement);
}

/// Argument fidelity for literal arguments: the arguments of the command are
/// the given texts, each of them, in the given order.
pub proof fn law_literal_arguments(program: Seq<char>, values: Seq<Seq<char>>)
    ensures
        ({
            let statement = seq![TokenView::Value(program)] + value_tokens(values);
            let cmd = CmdView {
                program,
                args: literal_args(values),
                sink: None,
                source: None,
            };
            &&& spec_parse(statement) == Ok::<_, ParseError>(seq![cmd])
            &&& spec_parse(statement.push(TokenView::EndOfLine)) == Ok::<_, ParseError>(seq![cmd])
            &&& cmd.args.len() == values.len()
            &&& forall|i: int| 0 <= i < values.len() ==> cmd.args[i] == ArgView::Literal(values[i])
        }),
{
    law_arguments(program, value_tokens(values));
    assert(arguments_of(value_tokens(values)) =~= literal_args(values));
}

/// The target that a value or an expression names behind a marker.
pub open spec fn target_named(token: TokenView) -> TargetView {
    match token {
        TokenView::Value(name) => TargetView::File(name),
        TokenView::Expr(stream) => TargetView::Expr(stream),
        _ => arbitrary(),
    }
}

/// The target that an optional value or expression names.
pub open spec fn target_given(token: Option<TokenView>) -> Option<TargetView> {
    match token {
        Some(token) => Some(target_named(token)),
        None => None,
    }
}

/// The tokens that redirect the sink to `sink` and the source to `source`,
/// where these are given, the sink first or the source first.
pub open spec fn redirections(
    sink: Option<TokenView>,
    source: Option<TokenView>,
    sink_first: bool,
) -> Seq<TokenView> {
    let to_sink = match sink {
        Some(target) => seq![TokenView::Sink, target],
        None => Seq::empty(),
    };
    let from_source = match source {
        Some(target) => seq![TokenView::Source, target],
        None => Seq::empty(),
    };
    if sink_first {
        to_sink + from_source
    } else {
        from_source + to_sink
    }
}

/// A run over tokens and one more is the run over the tokens and one
/// transition.
proof fn lemma_run_push(machine: ParserView, tokens: Seq<TokenView>, token: TokenView)
    ensures
        machine.run(tokens.push(token)) == match machine.run(tokens) {
            Err(e) => Err(e),
            Ok((reached, cmds)) => match reached.step(token) {
                Err(e) => Err(e),
                Ok((next, emitted)) => Ok((next, with_emitted(cmds, emitted))),
            },
        },
{
    assert(tokens.push(token).drop_last() =~= tokens);
}

/// A run over tokens and two more.
proof fn lemma_run_push2(
    machine: ParserView,
    tokens: Seq<TokenView>,
    marker: TokenView,
    target: TokenView,
)
    ensures
        machine.run(tokens + seq![marker, target]) == machine.run(tokens.push(marker).push(target)),
{
    assert(tokens + seq![marker, target] =~= tokens.push(marker).push(target));
}

/// A run over two sequences of tokens is the run over the first, and from
/// where that ends the run over the second.
pub proof fn lemma_run_concat(machine: ParserView, first: Seq<TokenView>, second: Seq<TokenView>)
    ensures
        machine.run(first + second) == match machine.run(first) {
            Err(e) => Err(e),
            Ok((reached, cmds)) => match reached.run(second) {
                Err(e) => Err(e),
                Ok((end, more)) => Ok((end, cmds + more)),
            },
        },
    decreases second.len(),
{
    if second.len() == 0 {
        assert(first + second =~= first);
        if machine.run(first) is Ok {
            let cmds = machine.run(first)->Ok_0.1;
            assert(cmds + Seq::<CmdView>::empty() =~= cmds);
        }
    } else {
        lemma_run_concat(machine, first, second.drop_last());
        assert((first + second).drop_last() =~= first + second.drop_last());
        assert((first + second).last() == second.last());
        if machine.run(first) is Ok {
            let (reached, cmds) = machine.run(first)->Ok_0;
            if reached.run(second.drop_last()) is Ok {
                let (before, more) = reached.run(second.drop_last())->Ok_0;
                if before.step(second.last()) is Ok {
                    let emitted = before.step(second.last())->Ok_0.1;
                    assert(with_emitted(cmds + more, emitted) =~= cmds + with_emitted(
                        more,
                        emitted,
                    ));
                }
            }
        }
    }
}

/// The shape of a statement: a program, arguments, and behind them the
/// redirection of the sink, of the source, of both in either order, or of
/// none, parse to the one command that holds exactly these. It makes no
/// difference whether an end-of-statement marker follows.
pub proof fn law_statement(
    program: Seq<char>,
    arguments: Seq<TokenView>,
    sink: Option<TokenView>,
    source: Option<TokenView>,
    sink_first: bool,
)
    requires
        forall|i: int| 0 <= i < arguments.len() ==> is_argument(#[trigger] arguments[i]),
        sink matches Some(target) ==> is_argument(target),
        source matches Some(target) ==> is_argument(target),
    ensures
        ({
            let statement = seq![TokenView::Value(program)] + arguments + redirections(
                sink,
                source,
                sink_first,
            );
            let cmd = CmdView {
                program,
                args: arguments_of(arguments),
                sink: target_given(sink),
                source: target_given(source),
            };
            &&& spec_parse(statement) == Ok::<_, ParseError>(seq![cmd])
            &&& spec_parse(statement.push(TokenView::EndOfLine)) == Ok::<_, ParseError>(seq![cmd])
        }),
{
    let start = ParserView::initial();
    let head = seq![TokenView::Value(program)] + arguments;
    let tail = redirections(sink, source, sink_first);
    let statement = head + tail;
    let cmd = CmdView {
        program,
        args: arguments_of(arguments),
        sink: target_given(sink),
        source: target_given(source),
    };
    lemma_run_arguments(program, arguments);
    let gathered = start.run(head)->Ok_0.0;
    lemma_run_concat(start, head, tail);
    let none = Seq::<TokenView>::empty();
    assert(gathered.run(none) == Ok::<_, ParseError>((gathered, Seq::<CmdView>::empty())));
    match (sink, source) {
        (None, None) => {
            assert(tail =~= none);
        },
        (Some(to), None) => {
            assert(tail =~= none + seq![TokenView::Sink, to]);
            lemma_run_push2(gathered, none, TokenView::Sink, to);
            lemma_run_push(gathered, none, TokenView::Sink);
            lemma_run_push(gathered, none.push(TokenView::Sink), to);
        },
        (None, Some(from)) => {
            assert(tail =~= none + seq![TokenView::Source, from]);
            lemma_run_push2(gathered, none, TokenView::Source, from);
            lemma_run_push(gathered, none, TokenView::Source);
            lemma_run_push(gathered, none.push(TokenView::Source), from);
        },
        (Some(to), Some(from)) => {
            let (m1, t1, m2, t2) = if sink_first {
                (TokenView::Sink, to, TokenView::Source, from)
            } else {
                (TokenView::Source, from, TokenView::Sink, to)
            };
            let one = none + seq![m1, t1];
            assert(tail =~= one + seq![m2, t2]);
            lemma_run_push2(gathered, none, m1, t1);
            lemma_run_push(gathered, none, m1);
            lemma_run_push(gathered, none.push(m1), t1);
            lemma_run_push2(gathered, one, m2, t2);
            lemma_run_push(gathered, one, m2);
            lemma_run_push(gathered, one.push(m2), t2);
        },
    }
    assert(start.run(statement) is Ok);
    let end = start.run(statement)->Ok_0.0;
    assert(start.run(statement)->Ok_0.1 =~= Seq::<CmdView>::empty());
    assert(end.descriptor() == cmd);
    assert(Seq::<CmdView>::empty().push(cmd) =~= seq![cmd]);
    lemma_run_push(start, statement, TokenView::EndOfLine);
}

/// Sequencing: behind statements that an end-of-statement marker ends, more
/// tokens parse as they do alone, and their commands follow those of the
/// statements before them.
pub proof fn law_sequence(first: Seq<TokenView>, rest: Seq<TokenView>)
    requires
        spec_parse(first.push(TokenView::EndOfLine)) is Ok,
    ensures
        spec_parse(first.push(TokenView::EndOfLine) + rest) == match spec_parse(rest) {
            Err(e) => Err(e),
            Ok(more) => Ok(spec_parse(first.push(TokenView::EndOfLine))->Ok_0 + more),
        },
{
    let start = ParserView::initial();
    let ended = first.push(TokenView::EndOfLine);
    lemma_run_push(start, first, TokenView::EndOfLine);
    let (reached, cmds) = start.run(ended)->Ok_0;
    assert(reached == start);
    lemma_run_concat(start, ended, rest);
    if start.run(rest) is Ok {
        let (end, more) = start.run(rest)->Ok_0;
        assert(with_emitted(cmds + more, end.finish()) =~= cmds + with_emitted(
            more,
            end.finish(),
        ));
    }
}

/// Whether the token is the marker that redirects the given stream.
pub open spec fn is_marker(token: TokenView, stream: Redirection) -> bool {
    match stream {
        Redirection::Sink => token is Sink,
        Redirection::Source => token is Source,
    }
}

/// The target that the machine holds for the given stream.
pub open spec fn target_of(machine: ParserView, stream: Redirection) -> Option<TargetView> {
    match stream {
        Redirection::Sink => machine.sink,
        Redirection::Source => machine.source,
    }
}

/// Whether none of the tokens from `from` up to, and without, `to` ends a
/// statement.
pub open spec fn same_statement(tokens: Seq<TokenView>, from: int, to: int) -> bool {
    forall|k: int| from <= k < to ==> !(#[trigger] tokens[k] is EndOfLine)
}

/// No silent overwrite: a transition that stays in the statement leaves a
/// target that is set as it is, and one that ends the statement hands it out
/// in the command.
pub proof fn law_target_is_kept(machine: ParserView, token: TokenView, stream: Redirection)
    requires
        target_of(machine, stream) is Some,
        machine.step(token) is Ok,
    ensures
        ({
            let (next, emitted) = machine.step(token)->Ok_0;
            match emitted {
                None => target_of(next, stream) == target_of(machine, stream),
                Some(cmd) => (match stream {
                    Redirection::Sink => cmd.sink,
                    Redirection::Source => cmd.source,
                }) == target_of(machine, stream),
            }
        }),
{
}

/// Where the tokens up to `n` run, those up to any `k <= n` run too.
proof fn lemma_run_beginning(machine: ParserView, tokens: Seq<TokenView>, k: int, n: int)
    requires
        0 <= k <= n <= tokens.len(),
        machine.run(tokens.take(n)) is Ok,
    ensures
        machine.run(tokens.take(k)) is Ok,
{
    if machine.run(tokens.take(k)) is Err {
        assert(tokens.take(n).take(k) =~= tokens.take(k));
        lemma_run_refused_stays(machine, tokens.take(n), k);
    }
}

/// The run up to `k + 1` is the run up to `k` and one transition.
proof fn lemma_run_last_step(machine: ParserView, tokens: Seq<TokenView>, k: int)
    requires
        0 <= k < tokens.len(),
        machine.run(tokens.take(k + 1)) is Ok,
    ensures
        machine.run(tokens.take(k)) is Ok,
        ({
            let before = machine.run(tokens.take(k))->Ok_0.0;
            &&& before.step(tokens[k]) is Ok
            &&& before.step(tokens[k])->Ok_0.0 == machine.run(tokens.take(k + 1))->Ok_0.0
        }),
{
    assert(tokens.take(k + 1).drop_last() =~= tokens.take(k));
}

/// Within a statement a target that is set stays set.
proof fn lemma_target_stays(
    machine: ParserView,
    tokens: Seq<TokenView>,
    stream: Redirection,
    from: int,
    to: int,
)
    requires
        0 <= from <= to <= tokens.len(),
        machine.run(tokens.take(to)) is Ok,
        machine.run(tokens.take(from)) is Ok,
        target_of(machine.run(tokens.take(from))->Ok_0.0, stream) is Some,
        same_statement(tokens, from, to),
    ensures
        target_of(machine.run(tokens.take(to))->Ok_0.0, stream) is Some,
    decreases to - from,
{
    if from < to {
        lemma_run_last_step(machine, tokens, to - 1);
        lemma_target_stays(machine, tokens, stream, from, to - 1);
        assert(!(tokens[to - 1] is EndOfLine));
    }
}

/// Single redirection: where one statement holds the marker of a stream
/// twice, and a token follows the second marker, the token sequence does not
/// parse. (A second marker that ends the input names no target, and sets none.)
pub proof fn law_second_target_refused(
    tokens: Seq<TokenView>,
    stream: Redirection,
    first: int,
    second: int,
)
    requires
        0 <= first < second < tokens.len() - 1,
        is_marker(tokens[first], stream),
        is_marker(tokens[second], stream),
        same_statement(tokens, first, second),
    ensures
        spec_parse(tokens) is Err,
{
    let start = ParserView::initial();
    let n = second + 2;
    if start.run(tokens.take(n)) is Ok {
        lemma_run_beginning(start, tokens, first + 1, n);
        lemma_run_beginning(start, tokens, first + 2, n);
        lemma_run_beginning(start, tokens, second, n);
        lemma_run_beginning(start, tokens, second + 1, n);
        lemma_run_last_step(start, tokens, first);
        lemma_run_last_step(start, tokens, first + 1);
        lemma_run_last_step(start, tokens, second);
        lemma_run_last_step(start, tokens, second + 1);
        if first + 1 < second {
            assert(!(tokens[first + 1] is EndOfLine));
            assert forall|k: int| first + 2 <= k < second implies !(#[trigger] tokens[k]
                is EndOfLine) by {}
            lemma_target_stays(start, tokens, stream, first + 2, second);
        }
        assert(false);
    }
    lemma_run_refused_stays(start, tokens, n);
}

/// Token trees that all stand for tokens are parsed as these tokens are: what
/// holds of every [`spec_parse`] holds of [`spec_cmd`] on such trees.
pub proof fn law_cmd_parses_tokens(lexemes: Seq<LexemeView>, tokens: Seq<TokenView>)
    requires
        lexemes.len() == tokens.len(),
        forall|i: int| 0 <= i < lexemes.len() ==> spec_token(#[trigger] lexemes[i]) == Ok::<
            _,
            ParseError,
        >(tokens[i]),
    ensures
        ParserView::initial().read(lexemes) == ParserView::initial().run(tokens),
        spec_cmd(lexemes) == spec_parse(tokens),
    decreases lexemes.len(),
{
    if lexemes.len() > 0 {
        law_cmd_parses_tokens(lexemes.drop_last(), tokens.drop_last());
        assert(spec_token(lexemes[lexemes.len() - 1]) == Ok::<_, ParseError>(tokens.last()));
    }
}

} // verus!
