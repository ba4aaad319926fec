use lishp::errors::ParserError;
use lishp::lexer::{lex, Token};
use lishp::parser::{parse, Expression, Func};

fn text(s: &str) -> Expression {
    Expression::String(s.to_string())
}

fn call(name: &str, arguments: Vec<Expression>) -> Expression {
    Expression::Function(Box::new(Func { name: text(name), arguments }))
}

#[test]
fn parse_nothing_gives_the_empty_call() {
    let parsed = parse(vec![]).unwrap();
    assert_eq!(parsed, Func { name: text(""), arguments: vec![] });
    assert!(parsed.is_empty());
    assert!(Func::empty().is_empty());
}

#[test]
fn parse_nested_call() {
    let tokens = vec![
        Token::String("ls".to_string()),
        Token::FunctionStart,
        Token::String("echo".to_string()),
        Token::String("src".to_string()),
        Token::FunctionEnd,
    ];
    let parsed = parse(tokens).unwrap();
    assert_eq!(
        parsed,
        Func { name: text("ls"), arguments: vec![call("echo", vec![text("src")])] }
    );
    assert!(!parsed.is_empty());
}

#[test]
fn lex_then_parse_nested_call() {
    let parsed = parse(lex("ls (echo src)").unwrap()).unwrap();
    assert_eq!(
        parsed,
        Func { name: text("ls"), arguments: vec![call("echo", vec![text("src")])] }
    );
}

#[test]
fn plain_words_become_name_and_arguments() {
    let parsed = parse(lex("  git  commit\t-m   message ").unwrap()).unwrap();
    assert_eq!(
        parsed,
        Func { name: text("git"), arguments: vec![text("commit"), text("-m"), text("message")] }
    );
}

#[test]
fn blank_line_parses_to_the_empty_call() {
    let parsed = parse(lex("   ").unwrap()).unwrap();
    assert!(parsed.is_empty());
}

#[test]
fn name_may_be_a_nested_call() {
    let parsed = parse(lex("(echo ls) -l").unwrap()).unwrap();
    assert_eq!(
        parsed,
        Func {
            name: call("echo", vec![text("ls")]),
            arguments: vec![text("-l")]
        }
    );
}

#[test]
fn open_call_is_closed_by_the_end() {
    let parsed = parse(lex("ls (echo src").unwrap()).unwrap();
    assert_eq!(
        parsed,
        Func { name: text("ls"), arguments: vec![call("echo", vec![text("src")])] }
    );
}

#[test]
fn missing_name_at_the_end() {
    assert_eq!(parse(lex("ls (").unwrap()), Err(ParserError::ExpectedFunctionNameGotEOF));
    assert_eq!(parse(vec![Token::FunctionStart]), Err(ParserError::ExpectedFunctionNameGotEOF));
}

#[test]
fn text_behind_the_closed_line() {
    assert_eq!(parse(lex("ls ) src").unwrap()), Err(ParserError::EndOfFunctionWhileStillTokens));
    assert_eq!(
        parse(vec![Token::FunctionEnd, Token::FunctionEnd]),
        Err(ParserError::EndOfFunctionWhileStillTokens)
    );
}

#[test]
fn one_closing_parenthesis_ends_the_line() {
    let parsed = parse(lex("ls src)").unwrap()).unwrap();
    assert_eq!(parsed, Func { name: text("ls"), arguments: vec![text("src")] });
}

#[test]
fn closing_parenthesis_in_place_of_a_name() {
    let parsed = parse(vec![Token::FunctionEnd]).unwrap();
    assert!(parsed.is_empty());
    let nested = parse(lex("echo ()").unwrap()).unwrap();
    assert_eq!(
        nested,
        Func { name: text("echo"), arguments: vec![call("", vec![])] }
    );
}

#[test]
fn empty_word_is_a_name() {
    let parsed = parse(lex("\"\" a").unwrap()).unwrap();
    assert_eq!(parsed, Func { name: text(""), arguments: vec![text("a")] });
    assert!(!parsed.is_empty());
}

#[test]
fn parser_messages() {
    assert_eq!(
        ParserError::ExpectedFunctionNameGotEOF.message(),
        "Parser Error: Expected a function, but instead got end of command."
    );
    assert_eq!(
        ParserError::EndOfFunctionWhileStillTokens.message(),
        "Parser Error: End of function but still more text after it. Hint: Do you have too many ')'?"
    );
}
