use crate::executor::context::Context;
use crate::executor::semantics::{eval_get_env, looked_up};
use crate::executor::value::{evaluated_view, replies_view, Halt, Reply, Request, Value};
use crate::executor::{evaluate_expression_to_string, fail_arity, fail_builtin, unexpected};
use crate::parser::{expressions_view, Expression};
use vstd::prelude::*;
use vstd::string::StringExecFns;

verus! {

/// `get-env`: the value of the environment variable that the one argument names.
pub fn get_env(args: &Vec<Expression>, context: &Context, replies: &Vec<Reply>, at: usize) -> (result:
    Result<(Value, usize), Halt>)
    ensures
        evaluated_view(result) == eval_get_env(
            expressions_view(args@),
            context@,
            replies_view(replies@),
            at as int,
        ),
    decreases args, 0int,
{
    if args.len() != 1 {
        return Err(fail_arity("get-env"));
    }
    assert(expressions_view(args@)[0] == args@[0]@);
    match evaluate_expression_to_string(&args[0], context, replies, at) {
        Err(halt) => Err(halt),
        Ok((name, next)) => look_up(name, replies, next),
    }
}

/// The value of the environment variable `name`, as reply `at` gives it.
pub fn look_up(name: String, replies: &Vec<Reply>, at: usize) -> (result: Result<(Value, usize), Halt>)
    ensures
        evaluated_view(result) == looked_up(name@, replies_view(replies@), at as int),
{
    if at >= replies.len() {
        return Err(Halt::Awaiting(Request::GetEnv(name)));
    }
    assert(replies_view(replies@)[at as int] == replies@[at as int]@);
    match &replies[at] {
        Reply::Text(value) => Ok((Value::Text(value.clone()), at + 1)),
        Reply::Absent => Err(fail_builtin(String::from_str("Variable not present"), "get-env")),
        Reply::Invalid => Err(
            fail_builtin(String::from_str("Variable not valid unicode"), "get-env"),
        ),
        Reply::Failed(reason) => Err(fail_builtin(reason.clone(), "get-env")),
        _ => Err(fail_builtin(unexpected(), "get-env")),
    }
}

} // verus!
