use crate::errors::ParserError;
use crate::lexer::TokenView;
use crate::parser::{
    behind, parse_arguments_spec, parse_function_spec, parse_spec, ExpressionView, FuncView,
};
use vstd::prelude::*;

verus! {

/// The tokens that an expression is written with: a word, or a call
/// between parentheses.
pub open spec fn flatten_expression(expression: ExpressionView) -> Seq<TokenView>
    decreases expression, 0int,
{
    match expression {
        ExpressionView::String(text) => seq![TokenView::String(text)],
        ExpressionView::Function(func) => seq![TokenView::FunctionStart] + flatten_func(*func)
            + seq![TokenView::FunctionEnd],
    }
}

/// The tokens that a call is written with: its name, then its arguments.
pub open spec fn flatten_func(func: FuncView) -> Seq<TokenView>
    decreases func, 0int,
{
    flatten_expression(func.name) + flatten_arguments(func.arguments, 0)
}

/// The tokens that the arguments from position `from` on are written with.
pub open spec fn flatten_arguments(arguments: Seq<ExpressionView>, from: int) -> Seq<TokenView>
    decreases arguments, arguments.len() - from,
{
    if from < 0 || from >= arguments.len() {
        seq![]
    } else {
        flatten_expression(arguments[from]) + flatten_arguments(arguments, from + 1)
    }
}

/// Whether `part` stands in `tokens` from position `at` on.
pub open spec fn stands_at(tokens: Seq<TokenView>, at: int, part: Seq<TokenView>) -> bool {
    &&& 0 <= at
    &&& at + part.len() <= tokens.len()
    &&& forall|i: int| 0 <= i < part.len() ==> tokens[at + i] == #[trigger] part[i]
}

/// Whether the call or the arguments that end before position `end` are
/// closed there: by a `FunctionEnd`, or by the end of the tokens.
pub open spec fn closed_at(tokens: Seq<TokenView>, end: int) -> bool {
    end == tokens.len() || (0 <= end < tokens.len() && tokens[end] is FunctionEnd)
}

/// The position behind what is closed at `end`: behind the `FunctionEnd`
/// that closes it, if one does.
pub open spec fn behind_close(tokens: Seq<TokenView>, end: int) -> int {
    if end == tokens.len() {
        end
    } else {
        end + 1
    }
}

proof fn lemma_stands_split(tokens: Seq<TokenView>, at: int, first: Seq<TokenView>, second: Seq<TokenView>)
    requires
        stands_at(tokens, at, first + second),
    ensures
        stands_at(tokens, at, first),
        stands_at(tokens, at + first.len(), second),
{
    let whole = first + second;
    assert forall|i: int| 0 <= i < first.len() implies tokens[at + i] == #[trigger] first[i] by {
        assert(whole[i] == first[i]);
    }
    assert forall|i: int| 0 <= i < second.len() implies tokens[at + first.len() + i]
        == #[trigger] second[i] by {
        assert(whole[first.len() + i] == second[i]);
    }
}

proof fn lemma_parse_flat_func(tokens: Seq<TokenView>, at: int, func: FuncView)
    requires
        stands_at(tokens, at, flatten_func(func)),
        closed_at(tokens, at + flatten_func(func).len()),
    ensures
        parse_function_spec(tokens, at) == Ok::<(FuncView, int), ParserError>(
            (func, behind_close(tokens, at + flatten_func(func).len())),
        ),
    decreases func, 0int,
{
    let name = flatten_expression(func.name);
    let rest = flatten_arguments(func.arguments, 0);
    lemma_stands_split(tokens, at, name, rest);
    assert(tokens[at] == name[0]);
    match func.name {
        ExpressionView::String(text) => {
            lemma_parse_flat_arguments(tokens, at + 1, func.arguments, 0);
            assert(func.arguments.skip(0) =~= func.arguments);
        },
        ExpressionView::Function(inner) => {
            let body = flatten_func(*inner);
            let open = seq![TokenView::FunctionStart];
            let close = seq![TokenView::FunctionEnd];
            assert(name == (open + body) + close);
            lemma_stands_split(tokens, at, open + body, close);
            lemma_stands_split(tokens, at, open, body);
            assert(tokens[at + 1 + body.len()] == close[0]);
            lemma_parse_flat_func(tokens, at + 1, *inner);
            assert(behind(at, at + 2 + body.len(), tokens.len() as int) == at + 2 + body.len());
            lemma_parse_flat_arguments(tokens, at + name.len(), func.arguments, 0);
            assert(func.arguments.skip(0) =~= func.arguments);
        },
    }
}

proof fn lemma_parse_flat_arguments(
    tokens: Seq<TokenView>,
    at: int,
    arguments: Seq<ExpressionView>,
    from: int,
)
    requires
        0 <= from <= arguments.len(),
        stands_at(tokens, at, flatten_arguments(arguments, from)),
        closed_at(tokens, at + flatten_arguments(arguments, from).len()),
    ensures
        parse_arguments_spec(tokens, at) == Ok::<(Seq<ExpressionView>, int), ParserError>(
            (
                arguments.skip(from),
                behind_close(tokens, at + flatten_arguments(arguments, from).len()),
            ),
        ),
    decreases arguments, arguments.len() - from,
{
    if from >= arguments.len() {
        assert(arguments.skip(from) =~= seq![]);
    } else {
        let first = flatten_expression(arguments[from]);
        let rest = flatten_arguments(arguments, from + 1);
        lemma_stands_split(tokens, at, first, rest);
        assert(tokens[at] == first[0]);
        assert(seq![arguments[from]] + arguments.skip(from + 1) =~= arguments.skip(from));
        match arguments[from] {
            ExpressionView::String(text) => {
                lemma_parse_flat_arguments(tokens, at + 1, arguments, from + 1);
            },
            ExpressionView::Function(inner) => {
                let body = flatten_func(*inner);
                let open = seq![TokenView::FunctionStart];
                let close = seq![TokenView::FunctionEnd];
                assert(first == (open + body) + close);
                lemma_stands_split(tokens, at, open + body, close);
                lemma_stands_split(tokens, at, open, body);
                assert(tokens[at + 1 + body.len()] == close[0]);
                lemma_parse_flat_func(tokens, at + 1, *inner);
                assert(behind(at, at + 2 + body.len(), tokens.len() as int) == at + 2 + body.len());
                lemma_parse_flat_arguments(tokens, at + first.len(), arguments, from + 1);
            },
        }
    }
}

/// Parsing is the inverse of writing a call out: the tokens that a call
/// is written with parse to that call, whatever the call is.
pub proof fn lemma_parse_flatten(func: FuncView)
    ensures
        parse_spec(flatten_func(func)) == Ok::<FuncView, ParserError>(func),
{
    let tokens = flatten_func(func);
    assert(flatten_expression(func.name).len() > 0);
    assert(stands_at(tokens, 0, tokens));
    lemma_parse_flat_func(tokens, 0, func);
}

} // verus!
