use crate::errors::LexerError;
use crate::text::{chars_of, is_whitespace, is_whitespace_char};
use vstd::prelude::*;

verus! {

/// One lexical unit of a line.
#[derive(Debug, PartialEq, Eq)]
pub enum Token {
    FunctionStart,
    FunctionEnd,
    String(String),
}

/// What a token stands for: its kind and, for a word, its characters.
pub enum TokenView {
    FunctionStart,
    FunctionEnd,
    String(Seq<char>),
}

impl View for Token {
    type V = TokenView;

    open spec fn view(&self) -> TokenView {
        match self {
            Token::FunctionStart => TokenView::FunctionStart,
            Token::FunctionEnd => TokenView::FunctionEnd,
            Token::String(s) => TokenView::String(s@),
        }
    }
}

/// Where the scan stands between two characters.
pub enum LexMode {
    /// Outside any word.
    Between,
    /// Inside a bare word whose characters so far are given.
    Word(Seq<char>),
    /// Inside a bare word, just behind a backslash.
    WordEscape(Seq<char>),
    /// Inside a quoted run whose characters so far are given.
    Quote(Seq<char>),
    /// Inside a quoted run, just behind a backslash.
    QuoteEscape(Seq<char>),
}

/// The tokens that reading `c` in `mode` completes, and the mode behind `c`.
pub open spec fn lex_step(mode: LexMode, c: char) -> Result<(Seq<TokenView>, LexMode), LexerError> {
    match mode {
        LexMode::Between => {
            if c == '(' {
                Ok((seq![TokenView::FunctionStart], LexMode::Between))
            } else if c == ')' {
                Ok((seq![TokenView::FunctionEnd], LexMode::Between))
            } else if c == '"' {
                Ok((seq![], LexMode::Quote(seq![])))
            } else if is_whitespace(c) {
                Ok((seq![], LexMode::Between))
            } else if c == '\\' {
                Ok((seq![], LexMode::WordEscape(seq![])))
            } else {
                Ok((seq![], LexMode::Word(seq![c])))
            }
        },
        LexMode::Word(word) => {
            if c == '(' {
                Err(LexerError::OpenParethesisWithinArgument)
            } else if c == ')' {
                Ok((seq![TokenView::String(word), TokenView::FunctionEnd], LexMode::Between))
            } else if c == '"' {
                Err(LexerError::QuoteWithinArgument)
            } else if c == '\\' {
                Ok((seq![], LexMode::WordEscape(word)))
            } else if is_whitespace(c) {
                Ok((seq![TokenView::String(word)], LexMode::Between))
            } else {
                Ok((seq![], LexMode::Word(word.push(c))))
            }
        },
        LexMode::WordEscape(word) => Ok((seq![], LexMode::Word(word.push(c)))),
        LexMode::Quote(text) => {
            if c == '\\' {
                Ok((seq![], LexMode::QuoteEscape(text)))
            } else if c == '"' {
                Ok((seq![TokenView::String(text)], LexMode::Between))
            } else {
                Ok((seq![], LexMode::Quote(text.push(c))))
            }
        },
        LexMode::QuoteEscape(text) => Ok((seq![], LexMode::Quote(text.push(c)))),
    }
}

/// What the end of the line means in `mode`.
pub open spec fn lex_end(mode: LexMode) -> Result<Seq<TokenView>, LexerError> {
    match mode {
        LexMode::Between => Ok(seq![]),
        LexMode::Word(word) => Ok(seq![TokenView::String(word)]),
        LexMode::WordEscape(_) => Err(LexerError::TrailingBackslash),
        LexMode::Quote(_) => Err(LexerError::UnclosedQuote),
        LexMode::QuoteEscape(_) => Err(LexerError::TrailingBackslash),
    }
}

/// `first` in front of what `rest` gives, unless `rest` failed.
pub open spec fn lex_prepend(first: Seq<TokenView>, rest: Result<Seq<TokenView>, LexerError>) -> Result<
    Seq<TokenView>,
    LexerError,
> {
    match rest {
        Ok(tokens) => Ok(first + tokens),
        Err(e) => Err(e),
    }
}

/// The tokens of `line` from position `at` on, when the scan stands there in `mode`.
pub open spec fn lex_from(mode: LexMode, line: Seq<char>, at: int) -> Result<Seq<TokenView>, LexerError>
    decreases line.len() - at,
{
    if at < 0 || at >= line.len() {
        lex_end(mode)
    } else {
        match lex_step(mode, line[at]) {
            Err(e) => Err(e),
            Ok((done, next)) => lex_prepend(done, lex_from(next, line, at + 1)),
        }
    }
}

/// The tokens of a whole line.
pub open spec fn lex_spec(line: Seq<char>) -> Result<Seq<TokenView>, LexerError> {
    lex_from(LexMode::Between, line, 0)
}

/// The views of a run of tokens.
pub open spec fn tokens_view(tokens: Seq<Token>) -> Seq<TokenView> {
    tokens.map_values(|t: Token| t@)
}

/// The view of what `lex` returns.
pub open spec fn lexed_view(result: Result<Vec<Token>, LexerError>) -> Result<Seq<TokenView>, LexerError> {
    match result {
        Ok(tokens) => Ok(tokens_view(tokens@)),
        Err(e) => Err(e),
    }
}

proof fn lemma_prepend_twice(a: Seq<TokenView>, b: Seq<TokenView>, rest: Result<Seq<TokenView>, LexerError>)
    ensures
        lex_prepend(a, lex_prepend(b, rest)) == lex_prepend(a + b, rest),
{
    if let Ok(tokens) = rest {
        assert(a + (b + tokens) =~= (a + b) + tokens);
    }
}

proof fn lemma_prepend_nothing(rest: Result<Seq<TokenView>, LexerError>)
    ensures
        lex_prepend(seq![], rest) == rest,
{
    if let Ok(tokens) = rest {
        assert(Seq::<TokenView>::empty() + tokens =~= tokens);
    }
}

/// The mode in which the scan stands behind the first `n` characters of
/// `line`, or the error that stopped it before.
pub open spec fn mode_after(line: Seq<char>, n: int) -> Result<LexMode, LexerError>
    decreases n,
{
    if n <= 0 {
        Ok(LexMode::Between)
    } else {
        match mode_after(line, n - 1) {
            Err(e) => Err(e),
            Ok(mode) => match lex_step(mode, line[n - 1]) {
                Err(e) => Err(e),
                Ok((_, next)) => Ok(next),
            },
        }
    }
}

/// An error met anywhere in a line is the result for the whole line: the
/// one that stopped the scan within the first `n` characters, or else the
/// one that the rest gives in the mode reached there.
pub proof fn lemma_first_error_wins(line: Seq<char>, n: int)
    requires
        0 <= n <= line.len(),
    ensures
        mode_after(line, n) matches Err(e) ==> lex_spec(line) == Err::<Seq<TokenView>, LexerError>(e),
        mode_after(line, n) matches Ok(mode) ==> (lex_from(mode, line, n) matches Err(e)
            ==> lex_spec(line) == Err::<Seq<TokenView>, LexerError>(e)),
    decreases n,
{
    if n > 0 {
        lemma_first_error_wins(line, n - 1);
    }
}

/// A double quote inside a bare word, not behind a backslash, makes the
/// line fail with `QuoteWithinArgument`, whatever follows it.
pub proof fn lemma_quote_within_argument(line: Seq<char>, at: int)
    requires
        0 <= at < line.len(),
        mode_after(line, at) matches Ok(LexMode::Word(_)),
        line[at] == '"',
    ensures
        lex_spec(line) == Err::<Seq<TokenView>, LexerError>(LexerError::QuoteWithinArgument),
{
    lemma_first_error_wins(line, at);
}

/// An opening parenthesis inside a bare word, not behind a backslash, makes
/// the line fail with `OpenParethesisWithinArgument`, whatever follows it.
pub proof fn lemma_open_parenthesis_within_argument(line: Seq<char>, at: int)
    requires
        0 <= at < line.len(),
        mode_after(line, at) matches Ok(LexMode::Word(_)),
        line[at] == '(',
    ensures
        lex_spec(line) == Err::<Seq<TokenView>, LexerError>(
            LexerError::OpenParethesisWithinArgument,
        ),
{
    lemma_first_error_wins(line, at);
}

/// A line that ends in a backslash which no backslash before it escapes
/// fails with `TrailingBackslash`.
pub proof fn lemma_trailing_backslash(line: Seq<char>)
    requires
        line.len() > 0,
        line.last() == '\\',
        mode_after(line, line.len() - 1) matches Ok(mode) && !(mode is WordEscape) && !(mode
            is QuoteEscape),
    ensures
        lex_spec(line) == Err::<Seq<TokenView>, LexerError>(LexerError::TrailingBackslash),
{
    let n = line.len() - 1;
    lemma_first_error_wins(line, n);
    let mode = mode_after(line, n)->Ok_0;
    let next = lex_step(mode, line[n])->Ok_0.1;
    assert(lex_from(next, line, n + 1) == lex_end(next));
}

/// A line that ends inside a quoted run fails with `UnclosedQuote`.
pub proof fn lemma_unclosed_quote(line: Seq<char>)
    requires
        mode_after(line, line.len() as int) matches Ok(LexMode::Quote(_)),
    ensures
        lex_spec(line) == Err::<Seq<TokenView>, LexerError>(LexerError::UnclosedQuote),
{
    lemma_first_error_wins(line, line.len() as int);
}

/// Splits a line into tokens.
pub fn lex(line: &str) -> (result: Result<Vec<Token>, LexerError>)
    ensures
        lexed_view(result) == lex_spec(line@),
{
    let chars = chars_of(line);
    let mut pos: usize = 0;
    let mut tokens: Vec<Token> = Vec::new();
    proof {
        lemma_prepend_nothing(lex_from(LexMode::Between, chars@, 0));
        assert(tokens_view(tokens@) =~= seq![]);
    }
    while pos < chars.len()
        invariant
            pos <= chars.len(),
            chars@ == line@,
            lex_spec(line@) == lex_prepend(
                tokens_view(tokens@),
                lex_from(LexMode::Between, chars@, pos as int),
            ),
        decreases chars.len() - pos,
    {
        let c = chars[pos];
        let ghost before = tokens_view(tokens@);
        pos = pos + 1;
        if c == '(' {
            tokens.push(Token::FunctionStart);
            proof {
                assert(tokens_view(tokens@) =~= before + seq![TokenView::FunctionStart]);
                lemma_prepend_twice(
                    before,
                    seq![TokenView::FunctionStart],
                    lex_from(LexMode::Between, chars@, pos as int),
                );
            }
        } else if c == ')' {
            tokens.push(Token::FunctionEnd);
            proof {
                assert(tokens_view(tokens@) =~= before + seq![TokenView::FunctionEnd]);
                lemma_prepend_twice(
                    before,
                    seq![TokenView::FunctionEnd],
                    lex_from(LexMode::Between, chars@, pos as int),
                );
            }
        } else if c == '"' {
            proof {
                lemma_prepend_nothing(lex_from(LexMode::Quote(seq![]), chars@, pos as int));
            }
            match handle_quoted_string(&chars, &mut pos) {
                Ok(text) => {
                    let ghost word = text@;
                    tokens.push(Token::String(text));
                    proof {
                        assert(tokens_view(tokens@) =~= before + seq![TokenView::String(word)]);
                        lemma_prepend_twice(
                            before,
                            seq![TokenView::String(word)],
                            lex_from(LexMode::Between, chars@, pos as int),
                        );
                    }
                },
                Err(e) => {
                    return Err(e);
                },
            }
        } else if is_whitespace_char(c) {
            proof {
                lemma_prepend_nothing(lex_from(LexMode::Between, chars@, pos as int));
            }
        } else if c == '\\' {
            proof {
                lemma_prepend_nothing(lex_from(LexMode::WordEscape(seq![]), chars@, pos as int));
            }
            if pos >= chars.len() {
                return Err(LexerError::TrailingBackslash);
            }
            let escaped = chars[pos];
            pos = pos + 1;
            proof {
                lemma_prepend_nothing(lex_from(LexMode::Word(seq![escaped]), chars@, pos as int));
                assert(Seq::<char>::empty().push(escaped) =~= seq![escaped]);
            }
            match handle_argument(&chars, &mut pos, escaped) {
                Ok(mut arg) => {
                    let ghost added = tokens_view(arg@);
                    tokens.append(&mut arg);
                    proof {
                        assert(tokens_view(tokens@) =~= before + added);
                        lemma_prepend_twice(
                            before,
                            added,
                            lex_from(LexMode::Between, chars@, pos as int),
                        );
                    }
                },
                Err(e) => {
                    return Err(e);
                },
            }
        } else {
            proof {
                lemma_prepend_nothing(lex_from(LexMode::Word(seq![c]), chars@, pos as int));
            }
            match handle_argument(&chars, &mut pos, c) {
                Ok(mut arg) => {
                    let ghost added = tokens_view(arg@);
                    tokens.append(&mut arg);
                    proof {
                        assert(tokens_view(tokens@) =~= before + added);
                        lemma_prepend_twice(
                            before,
                            added,
                            lex_from(LexMode::Between, chars@, pos as int),
                        );
                    }
                },
                Err(e) => {
                    return Err(e);
                },
            }
        }
    }
    proof {
        assert(tokens_view(tokens@) + Seq::<TokenView>::empty() =~= tokens_view(tokens@));
    }
    Ok(tokens)
}

/// Reads the rest of a bare word that began with `first`, from `*pos` on, and
/// leaves `*pos` behind the character that ended it.
fn handle_argument(chars: &Vec<char>, pos: &mut usize, first: char) -> (result: Result<
    Vec<Token>,
    LexerError,
>)
    requires
        *old(pos) <= chars.len(),
    ensures
        *old(pos) <= *final(pos) <= chars.len(),
        lex_from(LexMode::Word(seq![first]), chars@, *old(pos) as int) == match result {
            Ok(tokens) => lex_prepend(
                tokens_view(tokens@),
                lex_from(LexMode::Between, chars@, *final(pos) as int),
            ),
            Err(e) => Err(e),
        },
{
    let mut arg = String::new();
    arg.push(first);
    assert(arg@ =~= seq![first]);
    while *pos < chars.len()
        invariant
            *old(pos) <= *pos <= chars.len(),
            lex_from(LexMode::Word(seq![first]), chars@, *old(pos) as int) == lex_from(
                LexMode::Word(arg@),
                chars@,
                *pos as int,
            ),
        decreases chars.len() - *pos,
    {
        let c = chars[*pos];
        *pos = *pos + 1;
        if c == '(' {
            return Err(LexerError::OpenParethesisWithinArgument);
        } else if c == ')' {
            let ghost word = arg@;
            let mut tokens: Vec<Token> = Vec::new();
            tokens.push(Token::String(arg));
            tokens.push(Token::FunctionEnd);
            assert(tokens_view(tokens@) =~= seq![TokenView::String(word), TokenView::FunctionEnd]);
            return Ok(tokens);
        } else if c == '"' {
            return Err(LexerError::QuoteWithinArgument);
        } else if c == '\\' {
            proof {
                lemma_prepend_nothing(lex_from(LexMode::WordEscape(arg@), chars@, *pos as int));
            }
            if *pos >= chars.len() {
                return Err(LexerError::TrailingBackslash);
            }
            let escaped = chars[*pos];
            *pos = *pos + 1;
            proof {
                lemma_prepend_nothing(
                    lex_from(LexMode::Word(arg@.push(escaped)), chars@, *pos as int),
                );
            }
            arg.push(escaped);
        } else if is_whitespace_char(c) {
            let ghost word = arg@;
            let mut tokens: Vec<Token> = Vec::new();
            tokens.push(Token::String(arg));
            assert(tokens_view(tokens@) =~= seq![TokenView::String(word)]);
            return Ok(tokens);
        } else {
            proof {
                lemma_prepend_nothing(lex_from(LexMode::Word(arg@.push(c)), chars@, *pos as int));
            }
            arg.push(c);
        }
    }
    let ghost word = arg@;
    let mut tokens: Vec<Token> = Vec::new();
    tokens.push(Token::String(arg));
    proof {
        assert(tokens_view(tokens@) =~= seq![TokenView::String(word)]);
        assert(seq![TokenView::String(word)] + Seq::<TokenView>::empty() =~= seq![
            TokenView::String(word),
        ]);
    }
    Ok(tokens)
}

/// Reads a quoted run whose opening quote stands just before `*pos`, and
/// leaves `*pos` behind the closing quote.
fn handle_quoted_string(chars: &Vec<char>, pos: &mut usize) -> (result: Result<String, LexerError>)
    requires
        *old(pos) <= chars.len(),
    ensures
        *old(pos) <= *final(pos) <= chars.len(),
        lex_from(LexMode::Quote(seq![]), chars@, *old(pos) as int) == match result {
            Ok(text) => lex_prepend(
                seq![TokenView::String(text@)],
                lex_from(LexMode::Between, chars@, *final(pos) as int),
            ),
            Err(e) => Err(e),
        },
{
    let mut text = String::new();
    assert(text@ =~= seq![]);
    while *pos < chars.len()
        invariant
            *old(pos) <= *pos <= chars.len(),
            lex_from(LexMode::Quote(seq![]), chars@, *old(pos) as int) == lex_from(
                LexMode::Quote(text@),
                chars@,
                *pos as int,
            ),
        decreases chars.len() - *pos,
    {
        let c = chars[*pos];
        *pos = *pos + 1;
        if c == '\\' {
            proof {
                lemma_prepend_nothing(lex_from(LexMode::QuoteEscape(text@), chars@, *pos as int));
            }
            if *pos >= chars.len() {
                return Err(LexerError::TrailingBackslash);
            }
            let escaped = chars[*pos];
            *pos = *pos + 1;
            proof {
                lemma_prepend_nothing(
                    lex_from(LexMode::Quote(text@.push(escaped)), chars@, *pos as int),
                );
            }
            text.push(escaped);
        } else if c == '"' {
            return Ok(text);
        } else {
            proof {
                lemma_prepend_nothing(lex_from(LexMode::Quote(text@.push(c)), chars@, *pos as int));
            }
            text.push(c);
        }
    }
    Err(LexerError::UnclosedQuote)
}

} // verus!
