use crate::errors::{ExecutorError, ExecutorErrorType};
use crate::executor::context::Context;
use crate::executor::semantics::{eval_pipe, pipe_stages};
use crate::executor::value::Command;
use crate::executor::value::{evaluated_view, replies_view, Halt, Reply, Request, Value};
use crate::executor::{evaluate_expression, fail_arity, fail_builtin, fail_start, unexpected};
use crate::parser::{expressions_view, Expression};
use crate::text::{joined, texts_view};
use vstd::prelude::*;
use vstd::string::StringExecFns;

verus! {

/// `pipe`: evaluates the stages in order. Each command but the last is
/// started, and the next one reads what it writes. The last one is the
/// value. A text in the first place is written by `echo`.
pub fn evaluate_pipe(args: &Vec<Expression>, context: &Context, replies: &Vec<Reply>, at: usize) -> (result:
    Result<(Value, usize), Halt>)
    ensures
        evaluated_view(result) == eval_pipe(
            expressions_view(args@),
            context@,
            replies_view(replies@),
            at as int,
        ),
    decreases args, args.len() + 1,
{
    if args.len() == 0 {
        return Err(fail_arity("pipe"));
    }
    let ghost all = expressions_view(args@);
    let ghost answers = replies_view(replies@);
    assert(all[0] == args@[0]@);
    let (first, start) = match evaluate_expression(&args[0], context, replies, at) {
        Err(halt) => {
            return Err(halt);
        },
        Ok(evaluated) => evaluated,
    };
    let mut previous = match first {
        Value::Text(text) => {
            let ghost shown = text@;
            let mut arguments: Vec<String> = Vec::new();
            arguments.push(text);
            assert(texts_view(arguments@) =~= seq![shown]);
            Command {
                program: String::from_str("echo"),
                arguments,
                working_dir: context.working_dir.clone(),
                input: None,
            }
        },
        Value::PendingCommand(command) => command,
        Value::DirectoryChange(_) => {
            return Err(fail_builtin(String::from_str("cd cannot be piped from."), "pipe"));
        },
    };
    let ghost whole = eval_pipe(all, context@, answers, at as int);
    let mut used = start;
    let mut i: usize = 1;
    while i < args.len()
        invariant
            1 <= i <= args.len(),
            all == expressions_view(args@),
            answers == replies_view(replies@),
            whole == eval_pipe(all, context@, answers, at as int),
            whole == pipe_stages(all, i as int, previous@, context@, answers, used as int),
        decreases args.len() - i,
    {
        assert(all[i as int] == args@[i as int]@);
        let (stage, next) = match evaluate_expression(&args[i], context, replies, used) {
            Err(halt) => {
                return Err(halt);
            },
            Ok(evaluated) => evaluated,
        };
        match stage {
            Value::Text(text) => {
                let begin = joined(
                    "Expected command but instead attempted to pipe into string '",
                    text.as_str(),
                );
                return Err(
                    Halt::Failed(
                        ExecutorError::from_type(
                            ExecutorErrorType::BuiltinExecutionError(joined(begin.as_str(), "'")),
                        ),
                    ),
                );
            },
            Value::DirectoryChange(_) => {
                return Err(
                    fail_builtin(String::from_str("cd cannot be piped from or into."), "pipe"),
                );
            },
            Value::PendingCommand(command) => {
                if next >= replies.len() {
                    return Err(Halt::Awaiting(Request::Spawn(previous)));
                }
                assert(answers[next as int] == replies@[next as int]@);
                match &replies[next] {
                    Reply::Spawned(handle) => {
                        previous =
                        Command {
                            program: command.program,
                            arguments: command.arguments,
                            working_dir: command.working_dir,
                            input: Some(*handle),
                        };
                        used = next + 1;
                        i = i + 1;
                    },
                    Reply::Failed(reason) => {
                        return Err(fail_start(reason.clone(), previous.program));
                    },
                    _ => {
                        return Err(fail_start(unexpected(), previous.program));
                    },
                }
            },
        }
    }
    Ok((Value::PendingCommand(previous), used))
}

} // verus!
