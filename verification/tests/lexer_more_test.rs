use lishp::errors::LexerError;
use lishp::lexer::{lex, Token};

fn word(s: &str) -> Token {
    Token::String(s.to_string())
}

#[test]
fn whitespace_of_any_kind_separates() {
    assert_eq!(lex("ls\tsrc\n target\u{a0}x").unwrap(), vec![word("ls"), word("src"), word("target"), word("x")]);
    assert_eq!(lex(" \t ").unwrap(), vec![]);
}

#[test]
fn quotes_keep_what_they_hold() {
    assert_eq!(lex("\"a b\"").unwrap(), vec![word("a b")]);
    assert_eq!(lex("\"(a)\"").unwrap(), vec![word("(a)")]);
    assert_eq!(lex("\"a\\\"b\\\\c\"").unwrap(), vec![word("a\"b\\c")]);
    assert_eq!(lex("\"\"").unwrap(), vec![word("")]);
}

#[test]
fn adjacent_runs_stay_apart() {
    assert_eq!(lex("\"ab\"cd").unwrap(), vec![word("ab"), word("cd")]);
    assert_eq!(lex("\"ab\"\"cd\"").unwrap(), vec![word("ab"), word("cd")]);
    assert_eq!(lex("(a)(b)").unwrap(), vec![
        Token::FunctionStart,
        word("a"),
        Token::FunctionEnd,
        Token::FunctionStart,
        word("b"),
        Token::FunctionEnd,
    ]);
}

#[test]
fn backslash_begins_a_word() {
    assert_eq!(lex("\\ a").unwrap(), vec![word(" a")]);
    assert_eq!(lex("\\(").unwrap(), vec![word("(")]);
    assert_eq!(lex("a\\\tb").unwrap(), vec![word("a\tb")]);
}

#[test]
fn first_error_wins() {
    assert_eq!(lex("a(b\"c"), Err(LexerError::OpenParethesisWithinArgument));
    assert_eq!(lex("a\"b(c\\"), Err(LexerError::QuoteWithinArgument));
    assert_eq!(lex("\"abc\\"), Err(LexerError::TrailingBackslash));
    assert_eq!(lex("\\"), Err(LexerError::TrailingBackslash));
    assert_eq!(lex("\""), Err(LexerError::UnclosedQuote));
    assert_eq!(lex("a \"b c"), Err(LexerError::UnclosedQuote));
}

#[test]
fn escaped_backslash_at_the_end_is_fine() {
    assert_eq!(lex("a\\\\").unwrap(), vec![word("a\\")]);
}

#[test]
fn lexer_messages() {
    assert_eq!(
        LexerError::TrailingBackslash.message(),
        "Lexer Error: Single backslash at the end of the command."
    );
    assert_eq!(
        LexerError::UnclosedQuote.message(),
        "Lexer Error: Start of quoted string without end quote."
    );
    assert_eq!(
        LexerError::QuoteWithinArgument.message(),
        "Lexer Error: Quote found within argument. Either replace it with \\\"  or add a space before it if this is meant as a seperate argument."
    );
    assert_eq!(
        LexerError::OpenParethesisWithinArgument.message(),
        "Lexer Error: Open parenthesis '(' found within argument. Either replace it with \\(  or add a space before it if this is meant to be the start of a subcommand."
    );
}
