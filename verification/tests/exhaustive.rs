use qshell::literal::{has_escape_hazard, literal_value};
use qshell::{Lexeme, ParseError, Token};

/// Names the text at hand where reading it does not come back.
struct Reading<'a> {
    text: &'a str,
    done: bool,
}

impl Drop for Reading<'_> {
    fn drop(&mut self) {
        if !self.done {
            println!("no answer for {:?}", self.text);
        }
    }
}

/// Reads the text as a literal, and holds the answer against what the text
/// looks like.
fn read(text: &str) {
    let mut reading = Reading { text, done: false };
    let value = literal_value(text.to_string());
    let token = Token::from_lexeme(Lexeme::Literal(text.to_string()));
    reading.done = true;
    match (&value, &token) {
        (Ok(value), Ok(Token::Value(held))) => assert_eq!(value, held),
        (Err(e), Err(same)) => assert_eq!(e, same),
        _ => panic!("{text:?} gives {value:?} and {token:?}"),
    }
    if has_escape_hazard(text) {
        assert_eq!(value, Err(ParseError::InvalidLiteral), "{text:?}");
    }
    if let Ok(value) = &value {
        let first = text.chars().next().unwrap();
        if first == '"' || first == 'r' {
            assert!(value.len() < text.len(), "{text:?}");
        } else {
            assert_eq!(value, text);
            assert!(first.is_ascii_digit() || text == "true" || text == "false", "{text:?}");
        }
    }
}

/// Reads every text that begins with `text` and goes on with up to `more`
/// pieces of the alphabet.
fn read_all(alphabet: &[&str], text: &mut String, more: usize) {
    read(text);
    if more == 0 {
        return;
    }
    for piece in alphabet {
        let len = text.len();
        text.push_str(piece);
        read_all(alphabet, text, more - 1);
        text.truncate(len);
    }
}

#[test]
fn every_short_string_like_text_has_an_answer() {
    let alphabet =
        ["\"", "\\", "\u{e9}", "a", "n", "x", "u", "{", "}", "4", "_", "\n", "\r", "#", "'"];
    for start in ["\"", "r", "r#", "b\"", "br", "b'", "'", "c\""] {
        read_all(&alphabet, &mut start.to_string(), 4);
    }
}

#[test]
fn every_short_escape_has_an_answer() {
    let alphabet = ["\\", "u", "x", "{", "}", "0", "7", "f", "F", "g", "_", "\"", "\u{1f98a}"];
    for start in ["\"\\u{", "\"\\x", "\"\\", "'\\u{", "b\"\\x", "\"a\\\n "] {
        read_all(&alphabet, &mut start.to_string(), 4);
    }
}

#[test]
fn every_short_number_like_text_has_an_answer() {
    let alphabet = [
        "0", "1", "9", "_", ".", "e", "E", "+", "-", "x", "b", "o", "f", "u", "8", "\u{e9}", "a",
        "F",
    ];
    for start in ["0", "1", "0x", "0b", "0o", "1.", "1e"] {
        read_all(&alphabet, &mut start.to_string(), 4);
    }
}

#[test]
fn every_short_text_has_an_answer() {
    let alphabet =
        ["\"", "\\", "\u{e9}", "0", "r", "b", "'", "t", "f", "#", "\u{1f98a}", " ", "-", "c"];
    read_all(&alphabet, &mut String::new(), 4);
    let few = ["\"", "\\", "\u{e9}", "n", "b"];
    read_all(&few, &mut String::new(), 7);
}

#[test]
fn hazard_is_told_from_the_bytes() {
    assert!(has_escape_hazard("\"\\\"\"\u{e9}"));
    assert!(has_escape_hazard("\"a\\nb\"\u{e9}"));
    assert!(has_escape_hazard("b\"\\n\"\u{1f98a}"));
    assert!(has_escape_hazard("\"\u{e9}\\\u{e9}"));
    assert!(!has_escape_hazard("\"a\\nb\"e"));
    assert!(!has_escape_hazard("\"a\\n\u{e9}\""));
    assert!(!has_escape_hazard("\"h\u{e9}llo\"\u{e9}"));
    assert!(!has_escape_hazard("r\"\\\"\u{e9}"));
    assert!(!has_escape_hazard("'\\n'\u{e9}"));
    assert!(!has_escape_hazard("\\\u{e9}"));
    assert!(!has_escape_hazard("\""));
    assert!(!has_escape_hazard(""));
    assert!(!has_escape_hazard("\u{e9}"));
    assert_eq!(literal_value("\"a\\nb\"\u{e9}".to_string()), Err(ParseError::InvalidLiteral));
    assert_eq!(literal_value("\"h\u{e9}llo\"\u{e9}".to_string()), Ok("h\u{e9}llo".to_string()));
    assert_eq!(literal_value("\"a\\n\u{e9}\"".to_string()), Ok("a\n\u{e9}".to_string()));
    assert_eq!(literal_value("3\u{e9}".to_string()), Ok("3\u{e9}".to_string()));
}
