use crate::errors::ParserError;
use crate::lexer::{tokens_view, Token, TokenView};
use vstd::prelude::*;

verus! {

/// A function name or an argument: plain text, or a nested call.
#[derive(Debug, PartialEq)]
pub enum Expression {
    String(String),
    Function(Box<Func>),
}

/// A call: what names the function, and its arguments in order.
#[derive(Debug, PartialEq)]
pub struct Func {
    pub name: Expression,
    pub arguments: Vec<Expression>,
}

/// The mathematical form of an [`Expression`].
pub enum ExpressionView {
    String(Seq<char>),
    Function(Box<FuncView>),
}

/// The mathematical form of a [`Func`].
pub struct FuncView {
    pub name: ExpressionView,
    pub arguments: Seq<ExpressionView>,
}

/// The mathematical form of an expression.
pub open spec fn expression_view(expression: Expression) -> ExpressionView
    decreases expression,
{
    match expression {
        Expression::String(s) => ExpressionView::String(s@),
        Expression::Function(f) => ExpressionView::Function(Box::new(func_view(*f))),
    }
}

/// The mathematical form of a call.
pub open spec fn func_view(func: Func) -> FuncView
    decreases func,
{
    FuncView { name: expression_view(func.name), arguments: expressions_view(func.arguments@) }
}

/// The views of a run of expressions.
pub open spec fn expressions_view(expressions: Seq<Expression>) -> Seq<ExpressionView>
    decreases expressions,
{
    Seq::new(
        expressions.len(),
        |i: int|
            if 0 <= i < expressions.len() {
                expression_view(expressions[i])
            } else {
                ExpressionView::String(seq![])
            },
    )
}

impl View for Expression {
    type V = ExpressionView;

    open spec fn view(&self) -> ExpressionView {
        expression_view(*self)
    }
}

impl View for Func {
    type V = FuncView;

    open spec fn view(&self) -> FuncView {
        func_view(*self)
    }
}

impl FuncView {
    /// The call that a blank line stands for: an empty name and no arguments.
    pub open spec fn empty() -> FuncView {
        FuncView { name: ExpressionView::String(seq![]), arguments: seq![] }
    }

    /// Whether this is the call that a blank line stands for.
    pub open spec fn is_empty(self) -> bool {
        self.name == ExpressionView::String(seq![]) && self.arguments.len() == 0
    }
}

/// The position `next` behind a nested call that opened at token `at`, among
/// `len` tokens. Such a call always ends behind its opening token and within
/// the tokens (`lemma_parse_advances`), so this is `next`; the other case only
/// keeps the recursion well founded.
pub open spec fn behind(at: int, next: int, len: int) -> int {
    if at < next <= len {
        next
    } else {
        len
    }
}

/// The call that starts at token `at`, and the position behind it. The call
/// reaches to its closing `FunctionEnd`, which belongs to it, or to the end.
pub open spec fn parse_function_spec(tokens: Seq<TokenView>, at: int) -> Result<
    (FuncView, int),
    ParserError,
>
    decreases tokens.len() - at, 1int,
{
    if at < 0 || at >= tokens.len() {
        Err(ParserError::ExpectedFunctionNameGotEOF)
    } else {
        match tokens[at] {
            TokenView::FunctionEnd => Ok((FuncView::empty(), at + 1)),
            TokenView::String(s) => named(
                ExpressionView::String(s),
                parse_arguments_spec(tokens, at + 1),
            ),
            TokenView::FunctionStart => match parse_function_spec(tokens, at + 1) {
                Err(e) => Err(e),
                Ok((inner, next)) => named(
                    ExpressionView::Function(Box::new(inner)),
                    parse_arguments_spec(tokens, behind(at, next, tokens.len() as int)),
                ),
            },
        }
    }
}

/// The call named `name` with the arguments that `rest` gives, unless `rest` failed.
pub open spec fn named(name: ExpressionView, rest: Result<(Seq<ExpressionView>, int), ParserError>) -> Result<
    (FuncView, int),
    ParserError,
> {
    match rest {
        Ok((arguments, next)) => Ok((FuncView { name, arguments }, next)),
        Err(e) => Err(e),
    }
}

/// The arguments that start at token `at`, up to the closing `FunctionEnd`
/// or the end, and the position behind them.
pub open spec fn parse_arguments_spec(tokens: Seq<TokenView>, at: int) -> Result<
    (Seq<ExpressionView>, int),
    ParserError,
>
    decreases tokens.len() - at, 0int,
{
    if at < 0 || at >= tokens.len() {
        Ok((seq![], at))
    } else {
        match tokens[at] {
            TokenView::FunctionEnd => Ok((seq![], at + 1)),
            TokenView::String(s) => arguments_prepend(
                ExpressionView::String(s),
                parse_arguments_spec(tokens, at + 1),
            ),
            TokenView::FunctionStart => match parse_function_spec(tokens, at + 1) {
                Err(e) => Err(e),
                Ok((inner, next)) => arguments_prepend(
                    ExpressionView::Function(Box::new(inner)),
                    parse_arguments_spec(tokens, behind(at, next, tokens.len() as int)),
                ),
            },
        }
    }
}

/// `first` in front of the arguments that `rest` gives, unless `rest` failed.
pub open spec fn arguments_prepend(
    first: ExpressionView,
    rest: Result<(Seq<ExpressionView>, int), ParserError>,
) -> Result<(Seq<ExpressionView>, int), ParserError> {
    match rest {
        Ok((arguments, next)) => Ok((seq![first] + arguments, next)),
        Err(e) => Err(e),
    }
}

/// The call tree of a whole token sequence.
pub open spec fn parse_spec(tokens: Seq<TokenView>) -> Result<FuncView, ParserError> {
    if tokens.len() == 0 {
        Ok(FuncView::empty())
    } else {
        match parse_function_spec(tokens, 0) {
            Err(e) => Err(e),
            Ok((func, next)) => if next < tokens.len() {
                Err(ParserError::EndOfFunctionWhileStillTokens)
            } else {
                Ok(func)
            },
        }
    }
}

/// The view of what `parse` returns.
pub open spec fn parsed_view(result: Result<Func, ParserError>) -> Result<FuncView, ParserError> {
    match result {
        Ok(func) => Ok(func@),
        Err(e) => Err(e),
    }
}

/// `done` in front of the arguments that `rest` gives, unless `rest` failed.
pub open spec fn arguments_extend(
    done: Seq<ExpressionView>,
    rest: Result<(Seq<ExpressionView>, int), ParserError>,
) -> Result<(Seq<ExpressionView>, int), ParserError> {
    match rest {
        Ok((arguments, next)) => Ok((done + arguments, next)),
        Err(e) => Err(e),
    }
}

proof fn lemma_extend_prepend(
    done: Seq<ExpressionView>,
    first: ExpressionView,
    rest: Result<(Seq<ExpressionView>, int), ParserError>,
)
    ensures
        arguments_extend(done, arguments_prepend(first, rest)) == arguments_extend(
            done.push(first),
            rest,
        ),
{
    if let Ok((arguments, next)) = rest {
        assert(done + (seq![first] + arguments) =~= done.push(first) + arguments);
    }
}

/// A call ends behind the token it starts at, and within the tokens.
pub proof fn lemma_parse_advances(tokens: Seq<TokenView>, at: int)
    requires
        0 <= at,
    ensures
        parse_function_spec(tokens, at) matches Ok((_, next)) ==> at < next <= tokens.len(),
        parse_arguments_spec(tokens, at) matches Ok((_, next)) ==> at <= next && (at
            <= tokens.len() ==> next <= tokens.len()),
    decreases tokens.len() - at,
{
    if at < tokens.len() {
        lemma_parse_advances(tokens, at + 1);
        match tokens[at] {
            TokenView::FunctionStart => {
                if let Ok((_, next)) = parse_function_spec(tokens, at + 1) {
                    lemma_parse_advances(tokens, next);
                }
            },
            _ => {},
        }
    }
}

impl Func {
    /// The call that a blank line stands for.
    pub fn empty() -> (func: Func)
        ensures
            func@ == FuncView::empty(),
    {
        let func = Func { name: Expression::String(String::new()), arguments: Vec::new() };
        assert(func@.arguments =~= seq![]);
        func
    }

    /// Whether this is the call that a blank line stands for.
    pub fn is_empty(&self) -> (b: bool)
        ensures
            b == self@.is_empty(),
    {
        match &self.name {
            Expression::String(s) => {
                assert(s@.len() == 0 <==> s@ =~= seq![]);
                s.as_str().is_empty() && self.arguments.len() == 0
            },
            Expression::Function(_) => false,
        }
    }
}

/// Builds the call tree of a token sequence.
pub fn parse(tokens: Vec<Token>) -> (result: Result<Func, ParserError>)
    ensures
        parsed_view(result) == parse_spec(tokens_view(tokens@)),
{
    if tokens.len() == 0 {
        return Ok(Func::empty());
    }
    let mut pos: usize = 0;
    let result = parse_function(&tokens, &mut pos);
    match result {
        Err(e) => Err(e),
        Ok(func) => {
            if pos < tokens.len() {
                Err(ParserError::EndOfFunctionWhileStillTokens)
            } else {
                Ok(func)
            }
        },
    }
}

/// Reads one call from `*pos` on and leaves `*pos` behind it.
fn parse_function(tokens: &Vec<Token>, pos: &mut usize) -> (result: Result<Func, ParserError>)
    requires
        *old(pos) <= tokens.len(),
    ensures
        *old(pos) <= *final(pos) <= tokens.len(),
        match result {
            Ok(func) => parse_function_spec(tokens_view(tokens@), *old(pos) as int) == Ok::<
                (FuncView, int),
                ParserError,
            >((func@, *final(pos) as int)),
            Err(e) => parse_function_spec(tokens_view(tokens@), *old(pos) as int) == Err::<
                (FuncView, int),
                ParserError,
            >(e),
        },
    decreases tokens.len() - *old(pos),
{
    let ghost all = tokens_view(tokens@);
    if *pos >= tokens.len() {
        return Err(ParserError::ExpectedFunctionNameGotEOF);
    }
    let ghost first = *pos as int;
    assert(all[first] == tokens@[first]@);
    let name = match &tokens[*pos] {
        Token::FunctionStart => {
            *pos = *pos + 1;
            match parse_function(tokens, pos) {
                Ok(inner) => {
                    proof {
                        lemma_parse_advances(all, first + 1);
                    }
                    Expression::Function(Box::new(inner))
                },
                Err(e) => {
                    return Err(e);
                },
            }
        },
        Token::FunctionEnd => {
            *pos = *pos + 1;
            return Ok(Func::empty());
        },
        Token::String(s) => {
            *pos = *pos + 1;
            Expression::String(s.clone())
        },
    };
    let ghost start = *pos as int;
    let mut arguments: Vec<Expression> = Vec::new();
    assert(parse_function_spec(all, first) == named(name@, parse_arguments_spec(all, start)));
    assert(expressions_view(arguments@) =~= seq![]);
    assert(arguments_extend(seq![], parse_arguments_spec(all, start)) == parse_arguments_spec(
        all,
        start,
    )) by {
        if let Ok((rest, next)) = parse_arguments_spec(all, start) {
            assert(Seq::<ExpressionView>::empty() + rest =~= rest);
        }
    }
    loop
        invariant_except_break
            parse_arguments_spec(all, start) == arguments_extend(
                expressions_view(arguments@),
                parse_arguments_spec(all, *pos as int),
            ),
        invariant
            all == tokens_view(tokens@),
            first == *old(pos),
            first < start <= *pos <= tokens.len(),
            parse_function_spec(all, first) == named(name@, parse_arguments_spec(all, start)),
        ensures
            parse_arguments_spec(all, start) == Ok::<(Seq<ExpressionView>, int), ParserError>(
                (expressions_view(arguments@), *pos as int),
            ),
        decreases tokens.len() - *pos,
    {
        let ghost done = expressions_view(arguments@);
        let ghost here = *pos as int;
        if *pos >= tokens.len() {
            assert(done + Seq::<ExpressionView>::empty() =~= done);
            break ;
        }
        assert(all[here] == tokens@[here]@);
        let argument = match &tokens[*pos] {
            Token::FunctionStart => {
                *pos = *pos + 1;
                match parse_function(tokens, pos) {
                    Ok(inner) => {
                        proof {
                            lemma_parse_advances(all, here + 1);
                        }
                        Expression::Function(Box::new(inner))
                    },
                    Err(e) => {
                        assert(parse_arguments_spec(all, here) == Err::<
                            (Seq<ExpressionView>, int),
                            ParserError,
                        >(e));
                        return Err(e);
                    },
                }
            },
            Token::FunctionEnd => {
                *pos = *pos + 1;
                assert(done + Seq::<ExpressionView>::empty() =~= done);
                break ;
            },
            Token::String(s) => {
                *pos = *pos + 1;
                Expression::String(s.clone())
            },
        };
        proof {
            assert(parse_arguments_spec(all, here) == arguments_prepend(
                argument@,
                parse_arguments_spec(all, *pos as int),
            ));
            lemma_extend_prepend(done, argument@, parse_arguments_spec(all, *pos as int));
        }
        arguments.push(argument);
        assert(expressions_view(arguments@) =~= done.push(argument@));
    }
    Ok(Func { name, arguments })
}

} // verus!
