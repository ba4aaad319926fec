use crate::executor::context::Context;
use crate::executor::semantics::eval_if;
use crate::executor::value::{evaluated_view, replies_view, Halt, Reply, Value};
use crate::executor::{evaluate_expression, evaluate_expression_to_string, fail_arity, fail_builtin};
use crate::parser::{expressions_view, Expression};
use crate::text::{joined, same_text};
use vstd::prelude::*;
use vstd::string::StringExecFns;

verus! {

/// `if`: evaluates the first argument to a text and, as it is `true` or
/// `false`, the second or the third argument to a value. The other one is
/// left alone.
pub fn evaluate_if(args: &Vec<Expression>, context: &Context, replies: &Vec<Reply>, at: usize) -> (result:
    Result<(Value, usize), Halt>)
    ensures
        evaluated_view(result) == eval_if(
            expressions_view(args@),
            context@,
            replies_view(replies@),
            at as int,
        ),
    decreases args, 0int,
{
    if args.len() != 3 {
        return Err(fail_arity("if"));
    }
    let ghost all = expressions_view(args@);
    assert(all[0] == args@[0]@ && all[1] == args@[1]@ && all[2] == args@[2]@);
    let (predicate, next) = match evaluate_expression_to_string(&args[0], context, replies, at) {
        Err(halt) => {
            return Err(halt);
        },
        Ok(evaluated) => evaluated,
    };
    if same_text(predicate.as_str(), "true") {
        evaluate_expression(&args[1], context, replies, next)
    } else if same_text(predicate.as_str(), "false") {
        evaluate_expression(&args[2], context, replies, next)
    } else {
        let start = joined("First argument must be true or false but was '", predicate.as_str());
        Err(fail_builtin(joined(start.as_str(), "'"), "if"))
    }
}

} // verus!
