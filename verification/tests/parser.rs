use qshell::{parse, Arg, Cmd, ParseError, ParseResult, ShParser, Target, Token};

fn value(text: &str) -> Token {
    Token::Value(text.to_string())
}

fn expr(text: &str) -> Token {
    Token::Expr(text.parse().unwrap())
}

fn args(cmd: &Cmd) -> Vec<String> {
    cmd.args
        .iter()
        .map(|arg| match arg {
            Arg::Literal(text) => format!("literal {text}"),
            Arg::Expr(stream) => format!("expr {stream}"),
        })
        .collect()
}

fn target(target: &Option<Target>) -> String {
    match target {
        None => "none".to_string(),
        Some(Target::File(name)) => format!("file {name}"),
        Some(Target::Expr(stream)) => format!("expr {stream}"),
    }
}

fn error(tokens: Vec<Token>) -> ParseError {
    match parse(tokens) {
        Ok(cmds) => panic!("parsed to {cmds:?}"),
        Err(e) => e,
    }
}

#[test]
fn no_tokens_no_commands() {
    assert!(parse(Vec::new()).unwrap().is_empty());
}

#[test]
fn program_alone() {
    let cmds = parse(vec![value("ls")]).unwrap();
    assert_eq!(cmds.len(), 1);
    assert_eq!(cmds[0].program, "ls");
    assert!(cmds[0].args.is_empty());
    assert_eq!(target(&cmds[0].sink), "none");
    assert_eq!(target(&cmds[0].source), "none");
}

#[test]
fn literal_arguments_keep_order_and_repeats() {
    let words = ["b", "a", "b", "", "c", "a", "a"];
    let mut tokens = vec![value("echo")];
    tokens.extend(words.iter().map(|w| value(w)));
    let cmds = parse(tokens).unwrap();
    assert_eq!(cmds.len(), 1);
    assert_eq!(cmds[0].program, "echo");
    let expected: Vec<String> = words.iter().map(|w| format!("literal {w}")).collect();
    assert_eq!(args(&cmds[0]), expected);
}

#[test]
fn terminated_statement_is_the_same_command() {
    let open = parse(vec![value("echo"), value("hello"), value("world")]).unwrap();
    let closed =
        parse(vec![value("echo"), value("hello"), value("world"), Token::EndOfLine]).unwrap();
    assert_eq!(open.len(), 1);
    assert_eq!(closed.len(), 1);
    assert_eq!(open[0].program, closed[0].program);
    assert_eq!(args(&open[0]), vec!["literal hello", "literal world"]);
    assert_eq!(args(&closed[0]), args(&open[0]));
}

#[test]
fn expressions_stand_among_literals() {
    let cmds = parse(vec![value("echo"), value("hello"), expr("world"), value("!")]).unwrap();
    assert_eq!(args(&cmds[0]), vec!["literal hello", "expr world", "literal !"]);
}

#[test]
fn sink_and_source_in_either_order() {
    let one = parse(vec![
        value("cat"),
        Token::Source,
        expr("hello"),
        Token::Sink,
        expr("&mut out"),
    ])
    .unwrap();
    assert_eq!(one.len(), 1);
    assert_eq!(one[0].program, "cat");
    assert_eq!(target(&one[0].source), "expr hello");
    assert_eq!(target(&one[0].sink), "expr & mut out");

    let other = parse(vec![
        value("cat"),
        Token::Sink,
        value("out.txt"),
        Token::Source,
        value("in.txt"),
        Token::EndOfLine,
    ])
    .unwrap();
    assert_eq!(other.len(), 1);
    assert_eq!(target(&other[0].sink), "file out.txt");
    assert_eq!(target(&other[0].source), "file in.txt");
}

#[test]
fn statements_are_split_at_markers() {
    let mut tokens = Vec::new();
    for k in 0..5 {
        tokens.push(value("echo"));
        tokens.push(value(&k.to_string()));
        tokens.push(Token::EndOfLine);
    }
    let cmds = parse(tokens).unwrap();
    assert_eq!(cmds.len(), 5);
    for (k, cmd) in cmds.iter().enumerate() {
        assert_eq!(cmd.program, "echo");
        assert_eq!(args(cmd), vec![format!("literal {k}")]);
    }
}

#[test]
fn trailing_statement_counts_once_more() {
    let tokens = vec![
        value("a"),
        Token::EndOfLine,
        value("b"),
        value("x"),
        Token::EndOfLine,
        value("c"),
    ];
    let cmds = parse(tokens).unwrap();
    assert_eq!(cmds.len(), 3);
    assert_eq!(cmds[0].program, "a");
    assert_eq!(cmds[1].program, "b");
    assert_eq!(cmds[2].program, "c");
    assert_eq!(args(&cmds[1]), vec!["literal x"]);
}

#[test]
fn redirections_do_not_leak_into_the_next_statement() {
    let tokens = vec![
        value("a"),
        value("x"),
        Token::Sink,
        expr("out"),
        Token::EndOfLine,
        value("b"),
    ];
    let cmds = parse(tokens).unwrap();
    assert_eq!(cmds.len(), 2);
    assert_eq!(target(&cmds[0].sink), "expr out");
    assert_eq!(target(&cmds[1].sink), "none");
    assert!(cmds[1].args.is_empty());
}

#[test]
fn statement_has_to_begin_with_a_value() {
    assert_eq!(error(vec![Token::EndOfLine]), ParseError::UnexpectedCommand);
    assert_eq!(error(vec![Token::Sink, value("a")]), ParseError::UnexpectedCommand);
    assert_eq!(error(vec![Token::Source]), ParseError::UnexpectedCommand);
    assert_eq!(error(vec![expr("x"), value("a")]), ParseError::UnexpectedCommand);
    assert_eq!(
        error(vec![value("a"), Token::EndOfLine, Token::EndOfLine]),
        ParseError::UnexpectedCommand
    );
}

#[test]
fn marker_needs_a_target() {
    assert_eq!(error(vec![value("a"), Token::Sink, Token::EndOfLine]), ParseError::UnexpectedToken);
    assert_eq!(error(vec![value("a"), Token::Sink, Token::Sink]), ParseError::UnexpectedToken);
    assert_eq!(error(vec![value("a"), Token::Source, Token::Sink]), ParseError::UnexpectedToken);
    assert_eq!(
        error(vec![value("a"), Token::Source, Token::EndOfLine]),
        ParseError::UnexpectedToken
    );
}

#[test]
fn nothing_but_the_other_marker_follows_a_target() {
    assert_eq!(
        error(vec![value("a"), Token::Sink, expr("out"), value("b")]),
        ParseError::UnexpectedToken
    );
    assert_eq!(
        error(vec![value("a"), Token::Sink, expr("out"), Token::Sink, expr("more")]),
        ParseError::UnexpectedToken
    );
    assert_eq!(
        error(vec![value("a"), Token::Source, expr("text"), expr("b")]),
        ParseError::UnexpectedToken
    );
    assert_eq!(
        error(vec![value("a"), Token::Source, expr("text"), Token::Source, expr("more")]),
        ParseError::UnexpectedToken
    );
}

#[test]
fn sink_is_not_set_twice() {
    let tokens = vec![
        value("a"),
        Token::Sink,
        expr("one"),
        Token::Source,
        expr("text"),
        Token::Sink,
        expr("two"),
    ];
    assert_eq!(error(tokens), ParseError::SinkSetTwice);
    let tokens = vec![
        value("a"),
        Token::Sink,
        value("one"),
        Token::Source,
        value("text"),
        Token::Sink,
        Token::EndOfLine,
    ];
    assert_eq!(error(tokens), ParseError::SinkSetTwice);
}

#[test]
fn source_is_not_set_twice() {
    let tokens = vec![
        value("a"),
        Token::Source,
        expr("one"),
        Token::Sink,
        expr("out"),
        Token::Source,
        expr("two"),
    ];
    assert_eq!(error(tokens), ParseError::SourceSetTwice);
}

#[test]
fn marker_at_the_end_sets_nothing() {
    let cmds = parse(vec![value("a"), value("b"), Token::Sink]).unwrap();
    assert_eq!(cmds.len(), 1);
    assert_eq!(args(&cmds[0]), vec!["literal b"]);
    assert_eq!(target(&cmds[0].sink), "none");
    let cmds = parse(vec![
        value("a"),
        Token::Sink,
        expr("one"),
        Token::Source,
        expr("text"),
        Token::Sink,
    ])
    .unwrap();
    assert_eq!(target(&cmds[0].sink), "expr one");
    assert_eq!(target(&cmds[0].source), "expr text");
}

#[test]
fn feed_hands_out_the_command_at_the_marker() {
    let mut parser = ShParser::new();
    assert!(matches!(parser.feed(value("echo")), Ok(ParseResult::KeepGoing)));
    assert!(matches!(parser.feed(value("hi")), Ok(ParseResult::KeepGoing)));
    let done = parser.feed(Token::EndOfLine).unwrap();
    match done {
        ParseResult::Done(cmd) => {
            assert_eq!(cmd.program, "echo");
            assert_eq!(args(&cmd), vec!["literal hi"]);
        }
        ParseResult::KeepGoing => panic!("no command at the marker"),
    }
    assert!(parser.finish().is_none());
}

#[test]
fn refused_token_leaves_the_parser_as_it_was() {
    let mut parser = ShParser::new();
    assert_eq!(parser.feed(Token::Sink).unwrap_err(), ParseError::UnexpectedCommand);
    assert!(matches!(parser.feed(value("echo")), Ok(ParseResult::KeepGoing)));
    assert!(matches!(parser.feed(Token::Sink), Ok(ParseResult::KeepGoing)));
    assert_eq!(parser.feed(Token::Source).unwrap_err(), ParseError::UnexpectedToken);
    assert!(matches!(parser.feed(expr("out")), Ok(ParseResult::KeepGoing)));
    assert_eq!(parser.feed(value("more")).unwrap_err(), ParseError::UnexpectedToken);
    let cmd = parser.finish().unwrap();
    assert_eq!(cmd.program, "echo");
    assert!(cmd.args.is_empty());
    assert_eq!(target(&cmd.sink), "expr out");
}

#[test]
fn default_parser_is_a_new_parser() {
    assert!(ShParser::default().finish().is_none());
    assert!(ShParser::new().finish().is_none());
    let mut parser = ShParser::default();
    assert_eq!(parser.feed(Token::EndOfLine).unwrap_err(), ParseError::UnexpectedCommand);
}

#[test]
fn parse_error_messages() {
    assert_eq!(ParseError::UnexpectedCommand.message(), "Unexpected command");
    assert_eq!(ParseError::UnexpectedToken.message(), "Unexpected token");
    assert_eq!(ParseError::UnexpectedPunct('-').message(), "Unexpected token");
    assert_eq!(ParseError::SinkSetTwice.message(), "Can't set the sink more than once");
    assert_eq!(ParseError::SourceSetTwice.message(), "Can't set the source more than once");
    assert_eq!(ParseError::CharLiteral.message(), "Character literals are not implemented");
    assert_eq!(ParseError::ByteLiteral.message(), "Byte literals are not implemented");
    assert_eq!(ParseError::InvalidLiteral.message(), "Invalid literal");
}
