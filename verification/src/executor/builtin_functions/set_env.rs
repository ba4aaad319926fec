use crate::executor::context::Context;
use crate::executor::semantics::{eval_set_env, stored};
use crate::executor::value::{evaluated_view, replies_view, Halt, Reply, Request, Value};
use crate::executor::{evaluate_expression_to_string, fail_arity, fail_builtin, unexpected};
use crate::parser::{expressions_view, Expression};
use vstd::prelude::*;
use vstd::string::StringExecFns;

verus! {

/// `set-env`: sets the environment variable that the first argument names
/// to the text of the second, which is also the value.
pub fn set_env(args: &Vec<Expression>, context: &Context, replies: &Vec<Reply>, at: usize) -> (result:
    Result<(Value, usize), Halt>)
    ensures
        evaluated_view(result) == eval_set_env(
            expressions_view(args@),
            context@,
            replies_view(replies@),
            at as int,
        ),
    decreases args, 0int,
{
    if args.len() != 2 {
        return Err(fail_arity("set-env"));
    }
    let ghost all = expressions_view(args@);
    assert(all[0] == args@[0]@ && all[1] == args@[1]@);
    let (name, next) = match evaluate_expression_to_string(&args[0], context, replies, at) {
        Err(halt) => {
            return Err(halt);
        },
        Ok(evaluated) => evaluated,
    };
    match evaluate_expression_to_string(&args[1], context, replies, next) {
        Err(halt) => Err(halt),
        Ok((value, last)) => store(name, value, replies, last),
    }
}

/// The value of `set-env` once reply `at` tells that the variable is set.
pub fn store(name: String, value: String, replies: &Vec<Reply>, at: usize) -> (result: Result<
    (Value, usize),
    Halt,
>)
    ensures
        evaluated_view(result) == stored(name@, value@, replies_view(replies@), at as int),
{
    if at >= replies.len() {
        return Err(Halt::Awaiting(Request::SetEnv(name, value)));
    }
    assert(replies_view(replies@)[at as int] == replies@[at as int]@);
    match &replies[at] {
        Reply::Done => Ok((Value::Text(value), at + 1)),
        Reply::Failed(reason) => Err(fail_builtin(reason.clone(), "set-env")),
        _ => Err(fail_builtin(unexpected(), "set-env")),
    }
}

} // verus!
