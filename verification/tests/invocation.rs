use proc_macro2::TokenStream;
use qshell::invocation::{buffer, is_reference};
use qshell::{cmd, Arg, BuildError, Cmd, Invocation, Lexeme, Redirection, Target};

fn one(statement: &str) -> Cmd {
    let stream: TokenStream = statement.parse().unwrap();
    let mut cmds = cmd(stream).unwrap();
    assert_eq!(cmds.len(), 1);
    cmds.remove(0)
}

fn invocation(statement: &str) -> Result<Invocation, BuildError> {
    one(statement).invocation()
}

fn text(stream: &Option<TokenStream>) -> Option<String> {
    stream.as_ref().map(|s| s.to_string())
}

fn ident(name: &str) -> Lexeme {
    Lexeme::Ident(name.to_string())
}

#[test]
fn command_without_redirection_is_kept_whole() {
    let invocation = invocation("echo hello {world} 3").unwrap();
    assert_eq!(invocation.program, "echo");
    assert_eq!(invocation.args.len(), 3);
    assert!(matches!(&invocation.args[0], Arg::Literal(text) if text == "hello"));
    assert!(matches!(&invocation.args[1], Arg::Expr(expr) if expr.to_string() == "world"));
    assert!(matches!(&invocation.args[2], Arg::Literal(text) if text == "3"));
    assert!(invocation.sink.is_none());
    assert!(invocation.source.is_none());
}

#[test]
fn buffers_are_handed_on() {
    let invocation = self::invocation("cat < {hello} > {&mut out}").unwrap();
    assert_eq!(invocation.program, "cat");
    assert_eq!(text(&invocation.source), Some("hello".to_string()));
    assert_eq!(text(&invocation.sink), Some("& mut out".to_string()));
    let invocation = self::invocation("cat > {out} < {&hello}").unwrap();
    assert_eq!(text(&invocation.source), Some("& hello".to_string()));
    assert_eq!(text(&invocation.sink), Some("out".to_string()));
}

#[test]
fn file_redirection_is_not_implemented() {
    assert_eq!(
        invocation("echo hi > out").unwrap_err(),
        BuildError::NotImplemented(Redirection::Sink)
    );
    assert_eq!(
        invocation("cat < \"in.txt\"").unwrap_err(),
        BuildError::NotImplemented(Redirection::Source)
    );
    assert_eq!(
        invocation("cat < {text} > out").unwrap_err(),
        BuildError::NotImplemented(Redirection::Sink)
    );
    assert_eq!(
        invocation("cat > {out} < input").unwrap_err(),
        BuildError::NotImplemented(Redirection::Source)
    );
}

#[test]
fn sink_is_looked_at_before_source() {
    assert_eq!(
        invocation("cat < input > output").unwrap_err(),
        BuildError::NotImplemented(Redirection::Sink)
    );
    assert_eq!(
        invocation("cat < {a b} > output").unwrap_err(),
        BuildError::NotImplemented(Redirection::Sink)
    );
    assert_eq!(
        invocation("cat < input > {a b}").unwrap_err(),
        BuildError::ExpectedIdentifier(Redirection::Sink)
    );
}

#[test]
fn group_has_to_be_a_reference() {
    for group in [
        "", "a b", "a.b", "a()", "mut", "&mut", "&mut mut", "& &a", "&mut a b", "mut a", "1",
        "\"out\"", "*a", "&mut {a}", "& 1",
    ] {
        assert_eq!(
            invocation(&format!("echo > {{{group}}}")).unwrap_err(),
            BuildError::ExpectedIdentifier(Redirection::Sink),
            "{group}"
        );
        assert_eq!(
            invocation(&format!("cat < {{{group}}}")).unwrap_err(),
            BuildError::ExpectedIdentifier(Redirection::Source),
            "{group}"
        );
    }
    for group in ["out", "&out", "&mut out", "& mut out", "r#type"] {
        assert!(invocation(&format!("echo > {{{group}}}")).is_ok(), "{group}");
        assert!(invocation(&format!("cat < {{{group}}}")).is_ok(), "{group}");
    }
}

#[test]
fn reference_shapes() {
    assert!(is_reference(&vec![ident("out")]));
    assert!(is_reference(&vec![Lexeme::Punct('&'), ident("out")]));
    assert!(is_reference(&vec![Lexeme::Punct('&'), ident("mut"), ident("out")]));
    assert!(!is_reference(&vec![]));
    assert!(!is_reference(&vec![Lexeme::Punct('&')]));
    assert!(!is_reference(&vec![Lexeme::Literal("1".to_string())]));
    assert!(!is_reference(&vec![Lexeme::Group(TokenStream::new())]));
    assert!(!is_reference(&vec![ident("mut"), ident("out")]));
    assert!(!is_reference(&vec![ident("mut")]));
    assert!(!is_reference(&vec![Lexeme::Punct('&'), ident("mut")]));
    assert!(!is_reference(&vec![Lexeme::Punct('&'), ident("mut"), ident("mut")]));
    assert!(!is_reference(&vec![Lexeme::Punct('*'), ident("out")]));
    assert!(!is_reference(&vec![Lexeme::Punct('&'), ident("own"), ident("out")]));
    assert!(!is_reference(&vec![Lexeme::Punct('&'), ident("mut"), Lexeme::Punct('&')]));
    assert!(!is_reference(&vec![Lexeme::Punct('&'), ident("mut"), ident("a"), ident("b")]));
}

#[test]
fn buffer_of_each_target() {
    assert!(matches!(buffer(None, Redirection::Sink), Ok(None)));
    assert_eq!(
        buffer(Some(Target::File("f".to_string())), Redirection::Source).unwrap_err(),
        BuildError::NotImplemented(Redirection::Source)
    );
    let kept = buffer(Some(Target::Expr("&mut out".parse().unwrap())), Redirection::Sink);
    assert_eq!(text(&kept.unwrap()), Some("& mut out".to_string()));
    assert_eq!(
        buffer(Some(Target::Expr("out , err".parse().unwrap())), Redirection::Sink).unwrap_err(),
        BuildError::ExpectedIdentifier(Redirection::Sink)
    );
}

#[test]
fn build_error_messages() {
    assert_eq!(
        BuildError::NotImplemented(Redirection::Sink).message(),
        "Writing command output to file is not yet implemented"
    );
    assert_eq!(
        BuildError::NotImplemented(Redirection::Source).message(),
        "Reading command input from file is not yet implemented"
    );
    assert_eq!(BuildError::ExpectedIdentifier(Redirection::Sink).message(), "Expected identifier");
    assert_eq!(
        BuildError::ExpectedIdentifier(Redirection::Source).message(),
        "Expected identifier"
    );
}
