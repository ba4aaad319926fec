//! Evaluation of call trees.
//!
//! The evaluator starts no process and touches neither the environment nor
//! the file system. Where a line needs such work, evaluation stops with a
//! [`value::Request`]. Whoever drives it does the work, adds the
//! [`value::Reply`] to the replies of the line, and evaluates the line
//! again from the start: the replies at hand answer the requests in the
//! order in which evaluation makes them, and the first request without a
//! reply is the one that is handed out.

use crate::errors::{ExecutorError, ExecutorErrorType};
use crate::executor::builtin_functions::cd::evaluate_cd;
use crate::executor::builtin_functions::get_env::get_env;
use crate::executor::builtin_functions::if_function::evaluate_if;
use crate::executor::builtin_functions::pipe::evaluate_pipe;
use crate::executor::builtin_functions::set_env::set_env;
use crate::executor::builtin_functions::Builtin;
use crate::executor::context::Context;
use crate::executor::semantics::{
    arity_failure, builtin_failure, eval_args, eval_command, eval_expression, eval_func,
    eval_to_text, execute_spec, start_failure, text_of_value, unexpected_reply, StepView,
};
use crate::executor::value::{
    evaluated_text_view, evaluated_view, replies_view, Command, Halt, HaltView, Reply, Request,
    Value,
};
use crate::parser::{expressions_view, Expression, Func};
use crate::text::{joined, text_of_output, texts_view};
use vstd::prelude::*;
use vstd::string::StringExecFns;

pub mod builtin_functions;
pub mod context;
pub mod laws;
pub mod replay;
pub mod semantics;
pub mod value;

verus! {

/// What is to happen next for a line.
#[derive(Debug, PartialEq, Eq)]
pub enum Step {
    /// The outside world has work to do. Do it, add its reply to the
    /// replies, and ask again.
    Need(Request),
    /// The line is done once this text is printed.
    Print(String),
    /// The line is done.
    Done,
    /// The line failed and this is to be reported.
    Fail(ExecutorError),
}

impl View for Step {
    type V = StepView;

    open spec fn view(&self) -> StepView {
        match self {
            Step::Need(request) => StepView::Need(request@),
            Step::Print(text) => StepView::Print(text@),
            Step::Done => StepView::Done,
            Step::Fail(error) => StepView::Fail(error@),
        }
    }
}

/// The failure of a built-in that was called with the wrong number of arguments.
pub fn fail_arity(builtin: &str) -> (halt: Halt)
    ensures
        halt@ == arity_failure(builtin@),
{
    Halt::Failed(
        ExecutorErrorType::IncorrectNumberOfArgsToBuiltinFunction.binary(String::from_str(builtin)),
    )
}

/// The failure of a built-in that could not do its work.
pub fn fail_builtin(message: String, builtin: &str) -> (halt: Halt)
    ensures
        halt@ == builtin_failure(message@, builtin@),
{
    Halt::Failed(ExecutorErrorType::BuiltinExecutionError(message).binary(String::from_str(builtin)))
}

/// The failure of a program that could not be started.
pub fn fail_start(message: String, program: String) -> (halt: Halt)
    ensures
        halt@ == start_failure(message@, program@),
{
    Halt::Failed(ExecutorError::command_start(message).with(program))
}

/// What is said of a reply that does not fit the request it answers.
pub fn unexpected() -> (message: String)
    ensures
        message@ == unexpected_reply(),
{
    String::from_str("Unexpected reply")
}

/// Tells what is to happen next for the line `func`, given what the
/// outside world has answered so far. Where the line changes the
/// directory and the outside world has confirmed it, the session stands
/// there afterwards.
pub fn execute(func: &Func, context: &mut Context, replies: &Vec<Reply>) -> (step: Step)
    ensures
        (step@, final(context)@) == execute_spec(func@, old(context)@, replies_view(replies@)),
{
    if func.is_empty() {
        return Step::Done;
    }
    let ghost all = replies_view(replies@);
    let (value, at) = match evaluate_func(func, context, replies, 0) {
        Err(Halt::Awaiting(request)) => {
            return Step::Need(request);
        },
        Err(Halt::Failed(error)) => {
            return Step::Fail(error);
        },
        Ok(evaluated) => evaluated,
    };
    assert(at < replies.len() ==> all[at as int] == replies@[at as int]@);
    match value {
        Value::Text(text) => Step::Print(text),
        Value::PendingCommand(command) => {
            if at >= replies.len() {
                return Step::Need(Request::Run(command));
            }
            match &replies[at] {
                Reply::Done => Step::Done,
                Reply::Failed(reason) => Step::Fail(
                    ExecutorError::command_start(reason.clone()).with(command.program),
                ),
                _ => Step::Fail(ExecutorError::command_start(unexpected()).with(command.program)),
            }
        },
        Value::DirectoryChange(path) => {
            if at >= replies.len() {
                return Step::Need(Request::Canonicalize(context.working_dir.clone(), path));
            }
            match &replies[at] {
                Reply::Text(canonical) => {
                    context.working_dir = canonical.clone();
                    Step::Done
                },
                Reply::Failed(reason) => Step::Fail(
                    ExecutorErrorType::BuiltinExecutionError(
                        joined("Error canonicalizing path: ", reason.as_str()),
                    ).binary(String::from_str("cd")),
                ),
                _ => Step::Fail(
                    ExecutorErrorType::BuiltinExecutionError(
                        joined("Error canonicalizing path: ", "Unexpected reply"),
                    ).binary(String::from_str("cd")),
                ),
            }
        },
    }
}

/// Evaluates an expression to a text, from reply `at` on.
pub fn evaluate_expression_to_string(
    expr: &Expression,
    context: &Context,
    replies: &Vec<Reply>,
    at: usize,
) -> (result: Result<(String, usize), Halt>)
    ensures
        evaluated_text_view(result) == eval_to_text(
            expr@,
            context@,
            replies_view(replies@),
            at as int,
        ),
    decreases expr, 1int,
{
    match evaluate_expression(expr, context, replies, at) {
        Err(halt) => Err(halt),
        Ok((value, next)) => value_to_text(value, replies, next),
    }
}

/// The text that a value stands for, from reply `at` on.
pub fn value_to_text(value: Value, replies: &Vec<Reply>, at: usize) -> (result: Result<
    (String, usize),
    Halt,
>)
    ensures
        evaluated_text_view(result) == text_of_value(value@, replies_view(replies@), at as int),
{
    match value {
        Value::Text(text) => Ok((text, at)),
        Value::DirectoryChange(_) => Err(
            Halt::Failed(ExecutorErrorType::CdAsValue.binary(String::from_str("cd"))),
        ),
        Value::PendingCommand(command) => {
            if at >= replies.len() {
                return Err(Halt::Awaiting(Request::Capture(command)));
            }
            assert(replies_view(replies@)[at as int] == replies@[at as int]@);
            match &replies[at] {
                Reply::Output(bytes) => Ok((text_of_output(bytes), at + 1)),
                Reply::Failed(reason) => Err(fail_start(reason.clone(), command.program)),
                _ => Err(fail_start(unexpected(), command.program)),
            }
        },
    }
}

/// Evaluates an expression to a value, from reply `at` on.
pub fn evaluate_expression(expr: &Expression, context: &Context, replies: &Vec<Reply>, at: usize) -> (result:
    Result<(Value, usize), Halt>)
    ensures
        evaluated_view(result) == eval_expression(
            expr@,
            context@,
            replies_view(replies@),
            at as int,
        ),
    decreases expr, 0int,
{
    match expr {
        Expression::String(text) => Ok((Value::Text(text.clone()), at)),
        Expression::Function(func) => evaluate_func(func, context, replies, at),
    }
}

/// Evaluates a call to a value, from reply `at` on.
pub fn evaluate_func(func: &Func, context: &Context, replies: &Vec<Reply>, at: usize) -> (result:
    Result<(Value, usize), Halt>)
    ensures
        evaluated_view(result) == eval_func(func@, context@, replies_view(replies@), at as int),
    decreases func, 0int,
{
    let (name, next) = match evaluate_expression_to_string(&func.name, context, replies, at) {
        Err(halt) => {
            return Err(halt);
        },
        Ok(named) => named,
    };
    if name.as_str().is_empty() {
        let nothing = String::new();
        assert(nothing@ =~= seq![]);
        return Ok((Value::Text(nothing), next));
    }
    match Builtin::from_name(name.as_str()) {
        Some(Builtin::If) => evaluate_if(&func.arguments, context, replies, next),
        Some(Builtin::Pipe) => evaluate_pipe(&func.arguments, context, replies, next),
        Some(Builtin::Cd) => evaluate_cd(&func.arguments, context, replies, next),
        Some(Builtin::GetEnv) => get_env(&func.arguments, context, replies, next),
        Some(Builtin::SetEnv) => set_env(&func.arguments, context, replies, next),
        None => evaluate_command(name, &func.arguments, context, replies, next),
    }
}

/// The external command `name` with the texts of `args`, from reply `at` on.
pub fn evaluate_command(
    name: String,
    args: &Vec<Expression>,
    context: &Context,
    replies: &Vec<Reply>,
    at: usize,
) -> (result: Result<(Value, usize), Halt>)
    ensures
        evaluated_view(result) == eval_command(
            name@,
            expressions_view(args@),
            context@,
            replies_view(replies@),
            at as int,
        ),
    decreases args, args.len() + 1,
{
    match evaluate_args(args, context, replies, at) {
        Err(halt) => Err(halt),
        Ok((texts, next)) => Ok(
            (
                Value::PendingCommand(
                    Command {
                        program: name,
                        arguments: texts,
                        working_dir: context.working_dir.clone(),
                        input: None,
                    },
                ),
                next,
            ),
        ),
    }
}

/// `done` in front of the texts that `rest` gives, unless `rest` stopped.
pub open spec fn texts_extend(
    done: Seq<Seq<char>>,
    rest: Result<(Seq<Seq<char>>, int), HaltView>,
) -> Result<(Seq<Seq<char>>, int), HaltView> {
    match rest {
        Ok((texts, used)) => Ok((done + texts, used)),
        Err(halt) => Err(halt),
    }
}

/// The view of what evaluating arguments returns.
pub open spec fn evaluated_args_view(result: Result<(Vec<String>, usize), Halt>) -> Result<
    (Seq<Seq<char>>, int),
    HaltView,
> {
    match result {
        Ok((texts, used)) => Ok((texts_view(texts@), used as int)),
        Err(halt) => Err(halt@),
    }
}

/// Evaluates all arguments to texts, left to right, from reply `at` on.
pub fn evaluate_args(args: &Vec<Expression>, context: &Context, replies: &Vec<Reply>, at: usize) -> (result:
    Result<(Vec<String>, usize), Halt>)
    ensures
        evaluated_args_view(result) == eval_args(
            expressions_view(args@),
            0,
            context@,
            replies_view(replies@),
            at as int,
        ),
    decreases args, args.len(),
{
    let ghost all = expressions_view(args@);
    let ghost answers = replies_view(replies@);
    let ghost whole = eval_args(all, 0, context@, answers, at as int);
    let mut texts: Vec<String> = Vec::new();
    let mut used = at;
    let mut i: usize = 0;
    proof {
        assert(texts_view(texts@) =~= seq![]);
        if let Ok((rest, last)) = whole {
            assert(Seq::<Seq<char>>::empty() + rest =~= rest);
        }
    }
    while i < args.len()
        invariant
            i <= args.len(),
            all == expressions_view(args@),
            answers == replies_view(replies@),
            whole == eval_args(all, 0, context@, answers, at as int),
            whole == texts_extend(
                texts_view(texts@),
                eval_args(all, i as int, context@, answers, used as int),
            ),
        decreases args.len() - i,
    {
        let ghost done = texts_view(texts@);
        assert(all[i as int] == args@[i as int]@);
        match evaluate_expression_to_string(&args[i], context, replies, used) {
            Err(halt) => {
                return Err(halt);
            },
            Ok((text, next)) => {
                proof {
                    let rest = eval_args(all, i + 1, context@, answers, next as int);
                    if let Ok((more, last)) = rest {
                        assert(done + (seq![text@] + more) =~= done.push(text@) + more);
                    }
                }
                texts.push(text);
                assert(texts_view(texts@) =~= done.push(text@));
                used = next;
                i = i + 1;
            },
        }
    }
    proof {
        assert(texts_view(texts@) + Seq::<Seq<char>>::empty() =~= texts_view(texts@));
    }
    Ok((texts, used))
}

} // verus!
