use crate::executor::context::Context;
use crate::executor::semantics::{eval_cd, resolved_directory};
use crate::executor::value::{evaluated_view, replies_view, Halt, Reply, Request, Value};
use crate::executor::{evaluate_expression_to_string, fail_arity, fail_builtin, unexpected};
use crate::parser::{expressions_view, Expression};
use crate::text::joined;
use vstd::prelude::*;
use vstd::string::StringExecFns;

verus! {

/// `cd`: finds the directory to change to. It changes nothing itself.
pub fn evaluate_cd(arguments: &Vec<Expression>, context: &Context, replies: &Vec<Reply>, at: usize) -> (result:
    Result<(Value, usize), Halt>)
    ensures
        evaluated_view(result) == eval_cd(
            expressions_view(arguments@),
            context@,
            replies_view(replies@),
            at as int,
        ),
    decreases arguments, 0int,
{
    if arguments.len() == 0 {
        resolve_directory(None, context, replies, at)
    } else if arguments.len() == 1 {
        assert(expressions_view(arguments@)[0] == arguments@[0]@);
        match evaluate_expression_to_string(&arguments[0], context, replies, at) {
            Err(halt) => Err(halt),
            Ok((target, next)) => resolve_directory(Some(target), context, replies, next),
        }
    } else {
        Err(fail_arity("cd"))
    }
}

/// The view of a target of `cd`.
pub open spec fn target_view(target: Option<String>) -> Option<Seq<char>> {
    match target {
        Some(text) => Some(text@),
        None => None,
    }
}

/// The change to the directory that `target` names, as reply `at` resolves it.
pub fn resolve_directory(target: Option<String>, context: &Context, replies: &Vec<Reply>, at: usize) -> (result:
    Result<(Value, usize), Halt>)
    ensures
        evaluated_view(result) == resolved_directory(
            target_view(target),
            context@,
            replies_view(replies@),
            at as int,
        ),
{
    if at >= replies.len() {
        return Err(
            Halt::Awaiting(Request::ResolveDirectory(context.working_dir.clone(), target)),
        );
    }
    assert(replies_view(replies@)[at as int] == replies@[at as int]@);
    match &replies[at] {
        Reply::Text(path) => Ok((Value::DirectoryChange(path.clone()), at + 1)),
        Reply::Invalid => {
            let message = match &target {
                Some(text) => joined(text.as_str(), ": Not a directory"),
                None => joined("~", ": Not a directory"),
            };
            Err(fail_builtin(message, "cd"))
        },
        Reply::Failed(reason) => Err(fail_builtin(reason.clone(), "cd")),
        _ => Err(fail_builtin(unexpected(), "cd")),
    }
}

} // verus!
