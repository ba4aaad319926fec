use crate::KEYWORDS;
use crate::errors::LexerError;
use crate::lexer::{lex, lex_spec, tokens_view, Token, TokenView};
use crate::text::{chars_of, has_prefix, sort_texts, sorted_texts, texts_view};
use vstd::prelude::*;
use vstd::string::{StringExecFns, StringSliceAdditionalSpecFns};

verus! {

/// The part of a line, in bytes, that a suggestion replaces.
#[derive(Debug, PartialEq, Eq, Clone, Copy)]
pub struct Span {
    pub start: usize,
    pub end: usize,
}

/// A text offered to complete the line with.
#[derive(Debug, PartialEq, Eq)]
pub struct Suggestion {
    pub value: String,
    pub description: Option<String>,
    pub span: Span,
    pub append_whitespace: bool,
}

/// The mathematical form of a [`Suggestion`].
pub struct SuggestionView {
    pub value: Seq<char>,
    pub description: Option<Seq<char>>,
    pub span: Span,
    pub append_whitespace: bool,
}

impl View for Suggestion {
    type V = SuggestionView;

    open spec fn view(&self) -> SuggestionView {
        SuggestionView {
            value: self.value@,
            description: match self.description {
                Some(text) => Some(text@),
                None => None,
            },
            span: self.span,
            append_whitespace: self.append_whitespace,
        }
    }
}

/// The views of a run of suggestions.
pub open spec fn suggestions_view(suggestions: Seq<Suggestion>) -> Seq<SuggestionView> {
    suggestions.map_values(|s: Suggestion| s@)
}

/// The names of the built-in operations that are offered as commands.
pub open spec fn keywords_spec() -> Seq<Seq<char>> {
    Seq::new(5, |i: int| KEYWORDS[i]@)
}

/// The names of the built-in operations that are offered as commands.
pub fn keywords() -> (names: Vec<String>)
    ensures
        texts_view(names@) == keywords_spec(),
{
    let mut names: Vec<String> = Vec::new();
    let mut i: usize = 0;
    while i < 5
        invariant
            i <= 5,
            names.len() == i,
            forall|k: int| 0 <= k < i ==> names@[k]@ == KEYWORDS[k]@,
        decreases 5 - i,
    {
        names.push(String::from_str(KEYWORDS[i]));
        i = i + 1;
    }
    assert(texts_view(names@) =~= keywords_spec());
    names
}

/// The suggestion to put the command `command` in the place of `span`.
pub open spec fn command_suggestion(command: Seq<char>, span: Span) -> SuggestionView {
    SuggestionView { value: command, description: None, span, append_whitespace: true }
}

/// One suggestion for each of the first `n` commands that begin with
/// `start`, in their order.
pub open spec fn completions(commands: Seq<Seq<char>>, start: Seq<char>, span: Span, n: int) -> Seq<
    SuggestionView,
>
    decreases n,
{
    if n <= 0 {
        seq![]
    } else if start.is_prefix_of(commands[n - 1]) {
        completions(commands, start, span, n - 1).push(command_suggestion(commands[n - 1], span))
    } else {
        completions(commands, start, span, n - 1)
    }
}

/// The suggestion to write the escaped character `value` in the place of
/// the backslash before position `pos`.
pub open spec fn backslash_suggestion(value: Seq<char>, description: Seq<char>, pos: usize) -> SuggestionView {
    SuggestionView {
        value,
        description: Some(description),
        span: Span { start: (pos - 1) as usize, end: pos },
        append_whitespace: false,
    }
}

/// What may follow a backslash at the end of the line.
pub open spec fn backslash_suggestions(pos: usize) -> Seq<SuggestionView> {
    seq![
        backslash_suggestion("\\\\"@, "Backslash character"@, pos),
        backslash_suggestion("\\ "@, "Space character"@, pos),
        backslash_suggestion("\\\""@, "Double quote character"@, pos),
        backslash_suggestion("\\("@, "Open bracket character"@, pos),
        backslash_suggestion("\\)"@, "Close bracket character"@, pos),
    ]
}

/// `pos` less `len`, or 0 where `len` is more.
pub open spec fn back_by(pos: usize, len: usize) -> usize {
    if len <= pos {
        (pos - len) as usize
    } else {
        0
    }
}

/// The suggestions for a line whose part before the cursor is `typed`,
/// which is `pos` bytes long, among `commands`. A command name is
/// completed where a call begins: at the start of the line and behind an
/// opening parenthesis.
pub open spec fn complete_spec(commands: Seq<Seq<char>>, typed: Seq<char>, pos: usize) -> Seq<
    SuggestionView,
> {
    match lex_spec(typed) {
        Ok(tokens) => if tokens.len() == 0 {
            completions(commands, seq![], Span { start: 0, end: pos }, commands.len() as int)
        } else {
            match tokens.last() {
                TokenView::FunctionStart => completions(
                    commands,
                    seq![],
                    Span { start: pos, end: pos },
                    commands.len() as int,
                ),
                TokenView::FunctionEnd => seq![],
                TokenView::String(word) => if typed.len() > 0 && typed.last() == ' ' {
                    seq![]
                } else if tokens.len() < 2 || tokens[tokens.len() - 2] is FunctionStart {
                    completions(
                        commands,
                        word,
                        Span { start: back_by(pos, crate::text::byte_len(word)), end: pos },
                        commands.len() as int,
                    )
                } else {
                    seq![]
                },
            }
        },
        Err(LexerError::TrailingBackslash) => if pos > 0 {
            backslash_suggestions(pos)
        } else {
            seq![]
        },
        Err(_) => seq![],
    }
}

/// Completes command names.
pub struct LishpCompleter {
    pub commands: Vec<String>,
}

impl LishpCompleter {
    /// A completer that knows the programs `executables` and the built-ins,
    /// in the order of their names.
    pub fn new(executables: Vec<String>) -> (completer: LishpCompleter)
        ensures
            sorted_texts(texts_view(completer.commands@)),
            texts_view(completer.commands@).to_multiset() == (texts_view(executables@)
                + keywords_spec()).to_multiset(),
    {
        let mut commands = executables;
        let mut names = keywords();
        let ghost given = texts_view(commands@);
        commands.append(&mut names);
        assert(texts_view(commands@) =~= given + keywords_spec());
        sort_texts(&mut commands);
        LishpCompleter { commands }
    }

    /// The suggestions for `line` with the cursor behind its first `pos`
    /// bytes. There are none where `pos` is no place between two
    /// characters of `line`.
    pub fn complete(&self, line: &str, pos: usize) -> (suggestions: Vec<Suggestion>)
        ensures
            !vstd::utf8::is_char_boundary(line.spec_bytes(), pos as int) ==> suggestions@.len()
                == 0,
            vstd::utf8::is_char_boundary(line.spec_bytes(), pos as int) ==> suggestions_view(
                suggestions@,
            ) == complete_spec(
                texts_view(self.commands@),
                crate::text::typed_text(line@, pos as int),
                pos,
            ),
    {
        if !line.is_char_boundary(pos) {
            return Vec::new();
        }
        let (typed, _rest) = line.split_at(pos);
        proof {
            crate::text::lemma_typed_text(line, typed, pos as int);
        }
        self.complete_typed(typed, pos)
    }

    /// The suggestions for a line whose part before the cursor is `typed`,
    /// where the cursor stands behind `pos` bytes.
    pub fn complete_typed(&self, typed: &str, pos: usize) -> (suggestions: Vec<Suggestion>)
        ensures
            suggestions_view(suggestions@) == complete_spec(
                texts_view(self.commands@),
                typed@,
                pos,
            ),
    {
        match lex(typed) {
            Ok(tokens) => {
                if tokens.len() == 0 {
                    return suggest_commands(&self.commands, Span { start: 0, end: pos });
                }
                let ghost all = tokens_view(tokens@);
                assert(all.last() == tokens@[tokens.len() - 1]@);
                match &tokens[tokens.len() - 1] {
                    Token::FunctionStart => suggest_commands(
                        &self.commands,
                        Span { start: pos, end: pos },
                    ),
                    Token::FunctionEnd => {
                        let none: Vec<Suggestion> = Vec::new();
                        assert(suggestions_view(none@) =~= seq![]);
                        none
                    },
                    Token::String(word) => {
                        let chars = chars_of(typed);
                        let begins_call = if tokens.len() < 2 {
                            true
                        } else {
                            assert(all[tokens.len() - 2] == tokens@[tokens.len() - 2]@);
                            match &tokens[tokens.len() - 2] {
                                Token::FunctionStart => true,
                                _ => false,
                            }
                        };
                        if (chars.len() > 0 && chars[chars.len() - 1] == ' ') || !begins_call {
                            let none: Vec<Suggestion> = Vec::new();
                            assert(suggestions_view(none@) =~= seq![]);
                            none
                        } else {
                            let len = word.as_str().len();
                            let start = if len <= pos {
                                pos - len
                            } else {
                                0
                            };
                            complete_command(word.as_str(), &self.commands, Span { start, end: pos })
                        }
                    },
                }
            },
            Err(LexerError::TrailingBackslash) => {
                let mut offers: Vec<Suggestion> = Vec::new();
                if pos > 0 {
                    offers.push(to_backslash_suggestion("\\\\", "Backslash character", pos));
                    offers.push(to_backslash_suggestion("\\ ", "Space character", pos));
                    offers.push(to_backslash_suggestion("\\\"", "Double quote character", pos));
                    offers.push(to_backslash_suggestion("\\(", "Open bracket character", pos));
                    offers.push(to_backslash_suggestion("\\)", "Close bracket character", pos));
                    assert(suggestions_view(offers@) =~= backslash_suggestions(pos));
                } else {
                    assert(suggestions_view(offers@) =~= seq![]);
                }
                offers
            },
            Err(_) => {
                let none: Vec<Suggestion> = Vec::new();
                assert(suggestions_view(none@) =~= seq![]);
                none
            },
        }
    }
}

/// The suggestion to write the escaped character `value` in the place of
/// the backslash before position `pos`.
fn to_backslash_suggestion(value: &str, description: &str, pos: usize) -> (suggestion: Suggestion)
    requires
        pos > 0,
    ensures
        suggestion@ == backslash_suggestion(value@, description@, pos),
{
    Suggestion {
        value: String::from_str(value),
        description: Some(String::from_str(description)),
        span: Span { start: pos - 1, end: pos },
        append_whitespace: false,
    }
}

/// One suggestion for each command.
pub fn suggest_commands(commands: &Vec<String>, span: Span) -> (suggestions: Vec<Suggestion>)
    ensures
        suggestions_view(suggestions@) == completions(
            texts_view(commands@),
            seq![],
            span,
            commands.len() as int,
        ),
{
    let nothing = String::new();
    assert(nothing@ =~= seq![]);
    complete_command(nothing.as_str(), commands, span)
}

/// One suggestion for each command that begins with `start_of_command`.
pub fn complete_command(start_of_command: &str, commands: &Vec<String>, span: Span) -> (suggestions:
    Vec<Suggestion>)
    ensures
        suggestions_view(suggestions@) == completions(
            texts_view(commands@),
            start_of_command@,
            span,
            commands.len() as int,
        ),
{
    let ghost names = texts_view(commands@);
    let mut suggestions: Vec<Suggestion> = Vec::new();
    let mut i: usize = 0;
    assert(suggestions_view(suggestions@) =~= seq![]);
    while i < commands.len()
        invariant
            i <= commands.len(),
            names == texts_view(commands@),
            suggestions_view(suggestions@) == completions(
                names,
                start_of_command@,
                span,
                i as int,
            ),
        decreases commands.len() - i,
    {
        let ghost before = suggestions_view(suggestions@);
        assert(names[i as int] == commands@[i as int]@);
        if has_prefix(commands[i].as_str(), start_of_command) {
            suggestions.push(
                Suggestion {
                    value: commands[i].clone(),
                    description: None,
                    span,
                    append_whitespace: true,
                },
            );
            assert(suggestions_view(suggestions@) =~= before.push(
                command_suggestion(names[i as int], span),
            ));
        }
        i = i + 1;
    }
    suggestions
}

} // verus!
