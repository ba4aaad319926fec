use crate::errors::{LexerError, ParserError};
use crate::lexer::{lex_from, lex_spec, mode_after, LexMode, TokenView};
use crate::parser::{parse_arguments_spec, parse_spec, ExpressionView, FuncView};
use crate::text::is_whitespace;
use vstd::prelude::*;

verus! {

/// Whether `c` means nothing to the lexer but itself: it is no parenthesis,
/// no double quote and no backslash.
pub open spec fn is_plain(c: char) -> bool {
    c != '(' && c != ')' && c != '"' && c != '\\'
}

/// Whether a line holds literal words only.
pub open spec fn all_plain(line: Seq<char>) -> bool {
    forall|i: int| 0 <= i < line.len() ==> is_plain(#[trigger] line[i])
}

/// Where the word that holds position `at` ends: the first whitespace from
/// `at` on, or the end of the line.
pub open spec fn word_end(line: Seq<char>, at: int) -> int
    decreases line.len() - at,
{
    if at < 0 || at >= line.len() || is_whitespace(line[at]) {
        at
    } else {
        word_end(line, at + 1)
    }
}

/// A word ends at or behind where it is entered, and within the line.
pub proof fn lemma_word_end(line: Seq<char>, at: int)
    requires
        0 <= at <= line.len(),
    ensures
        at <= word_end(line, at) <= line.len(),
        at < line.len() && !is_whitespace(line[at]) ==> at < word_end(line, at),
        forall|i: int| at <= i < word_end(line, at) ==> !is_whitespace(#[trigger] line[i]),
        word_end(line, at) < line.len() ==> is_whitespace(line[word_end(line, at)]),
    decreases line.len() - at,
{
    if at < line.len() && !is_whitespace(line[at]) {
        lemma_word_end(line, at + 1);
    }
}

/// The words of `line` from position `at` on: its maximal runs of
/// characters that are not whitespace, in order.
pub open spec fn split_words(line: Seq<char>, at: int) -> Seq<Seq<char>>
    decreases line.len() - at,
{
    if at < 0 || at >= line.len() {
        seq![]
    } else if is_whitespace(line[at]) {
        split_words(line, at + 1)
    } else {
        proof {
            lemma_word_end(line, at);
        }
        seq![line.subrange(at, word_end(line, at))] + split_words(line, word_end(line, at))
    }
}

/// One word token for each word.
pub open spec fn word_tokens(words: Seq<Seq<char>>) -> Seq<TokenView> {
    words.map_values(|w: Seq<char>| TokenView::String(w))
}

/// One literal expression for each word.
pub open spec fn word_expressions(words: Seq<Seq<char>>) -> Seq<ExpressionView> {
    words.map_values(|w: Seq<char>| ExpressionView::String(w))
}

/// The call that a run of words stands for: the first names the function,
/// the others are its arguments. No words at all stand for the empty call.
pub open spec fn call_of_words(words: Seq<Seq<char>>) -> FuncView {
    if words.len() == 0 {
        FuncView::empty()
    } else {
        FuncView {
            name: ExpressionView::String(words[0]),
            arguments: word_expressions(words.skip(1)),
        }
    }
}

proof fn lemma_lex_word(line: Seq<char>, start: int, at: int)
    requires
        all_plain(line),
        0 <= start < at <= word_end(line, start),
        start < line.len(),
    ensures
        lex_from(LexMode::Word(line.subrange(start, at)), line, at) == Ok::<
            Seq<TokenView>,
            LexerError,
        >(
            word_tokens(
                seq![line.subrange(start, word_end(line, start))] + split_words(
                    line,
                    word_end(line, start),
                ),
            ),
        ),
    decreases line.len() - at,
{
    lemma_word_end(line, start);
    let end = word_end(line, start);
    let word = line.subrange(start, end);
    let rest = split_words(line, end);
    assert(word_tokens(seq![word] + rest) =~= seq![TokenView::String(word)] + word_tokens(rest));
    if at < end {
        assert(is_plain(line[at]));
        assert(line.subrange(start, at).push(line[at]) =~= line.subrange(start, at + 1));
        lemma_lex_word(line, start, at + 1);
        assert(seq![] + word_tokens(seq![word] + rest) =~= word_tokens(seq![word] + rest));
    } else if at < line.len() {
        assert(is_plain(line[at]));
        lemma_lex_plain(line, at + 1);
        assert(split_words(line, at) == split_words(line, at + 1));
    } else {
        assert(rest =~= seq![]);
        assert(seq![TokenView::String(word)] + word_tokens(rest) =~= seq![TokenView::String(word)]);
    }
}

proof fn lemma_lex_plain(line: Seq<char>, at: int)
    requires
        all_plain(line),
        0 <= at <= line.len(),
    ensures
        lex_from(LexMode::Between, line, at) == Ok::<Seq<TokenView>, LexerError>(
            word_tokens(split_words(line, at)),
        ),
    decreases line.len() - at,
{
    if at >= line.len() {
        assert(word_tokens(split_words(line, at)) =~= seq![]);
    } else {
        assert(is_plain(line[at]));
        if is_whitespace(line[at]) {
            lemma_lex_plain(line, at + 1);
            assert(seq![] + word_tokens(split_words(line, at)) =~= word_tokens(
                split_words(line, at),
            ));
        } else {
            lemma_word_end(line, at);
            assert(line.subrange(at, at + 1) =~= seq![line[at]]);
            lemma_lex_word(line, at, at + 1);
            let all = word_tokens(split_words(line, at));
            assert(seq![] + all =~= all);
        }
    }
}


proof fn lemma_parse_words(words: Seq<Seq<char>>, at: int)
    requires
        0 <= at <= words.len(),
    ensures
        parse_arguments_spec(word_tokens(words), at) == Ok::<
            (Seq<ExpressionView>, int),
            ParserError,
        >((word_expressions(words.skip(at)), words.len() as int)),
    decreases words.len() - at,
{
    if at < words.len() {
        lemma_parse_words(words, at + 1);
        assert(seq![ExpressionView::String(words[at])] + word_expressions(words.skip(at + 1))
            =~= word_expressions(words.skip(at)));
    } else {
        assert(word_expressions(words.skip(at)) =~= seq![]);
    }
}

/// On a line of literal words only, lexing gives one word token for each
/// whitespace-separated word, and parsing those gives the call whose name
/// is the first word and whose arguments are the others, in order.
pub proof fn lemma_plain_line(line: Seq<char>)
    requires
        all_plain(line),
    ensures
        lex_spec(line) == Ok::<Seq<TokenView>, LexerError>(word_tokens(split_words(line, 0))),
        parse_spec(word_tokens(split_words(line, 0))) == Ok::<FuncView, ParserError>(
            call_of_words(split_words(line, 0)),
        ),
{
    lemma_lex_plain(line, 0);
    let words = split_words(line, 0);
    if words.len() > 0 {
        lemma_parse_words(words, 1);
    }
}

/// Behind a run of literal characters the scan stands outside any word
/// where the run is empty or ends in whitespace, and inside a bare word
/// where it ends in another character.
pub proof fn lemma_plain_prefix(line: Seq<char>, n: int)
    requires
        0 <= n <= line.len(),
        forall|i: int| 0 <= i < n ==> is_plain(#[trigger] line[i]),
    ensures
        n == 0 || is_whitespace(line[n - 1]) ==> mode_after(line, n) == Ok::<LexMode, LexerError>(
            LexMode::Between,
        ),
        n > 0 && !is_whitespace(line[n - 1]) ==> mode_after(line, n) matches Ok(LexMode::Word(_)),
    decreases n,
{
    if n > 0 {
        lemma_plain_prefix(line, n - 1);
        assert(is_plain(line[n - 1]));
    }
}

} // verus!
