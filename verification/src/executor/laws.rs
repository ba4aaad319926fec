use crate::errors::ExecutorErrorTypeView;
use crate::executor::builtin_functions::{builtin_of, Builtin};
use crate::executor::semantics::{
    eval_args, eval_cd, eval_command, eval_expression, eval_if, eval_to_text, execute_spec,
    if_predicate_message, StepView,
};
use crate::executor::value::{HaltView, ReplyView, ValueView};
use crate::parser::{ExpressionView, FuncView};
use vstd::prelude::*;

verus! {

/// The call of the function named by the literal `name` with `arguments`.
pub open spec fn call(name: Seq<char>, arguments: Seq<ExpressionView>) -> ExpressionView {
    ExpressionView::Function(Box::new(FuncView { name: ExpressionView::String(name), arguments }))
}

/// Each name of a built-in names that built-in, and none of them is empty.
pub proof fn lemma_builtin_names()
    ensures
        builtin_of("if"@) == Some(Builtin::If),
        builtin_of("pipe"@) == Some(Builtin::Pipe),
        builtin_of("|"@) == Some(Builtin::Pipe),
        builtin_of("cd"@) == Some(Builtin::Cd),
        builtin_of("get-env"@) == Some(Builtin::GetEnv),
        builtin_of("set-env"@) == Some(Builtin::SetEnv),
        "if"@.len() == 2,
        "pipe"@.len() == 4,
        "|"@.len() == 1,
        "cd"@.len() == 2,
        "get-env"@.len() == 7,
        "set-env"@.len() == 7,
{
    reveal_strlit("if");
    reveal_strlit("pipe");
    reveal_strlit("|");
    reveal_strlit("cd");
    reveal_strlit("get-env");
    reveal_strlit("set-env");
    assert("cd"@[0] != "if"@[0]);
    assert("get-env"@[0] != "set-env"@[0]);
}

/// A blank line does nothing: it asks nothing of the outside world, prints
/// nothing, and leaves the session where it stands, whatever the replies.
pub proof fn lemma_empty_line_does_nothing(working_dir: Seq<char>, replies: Seq<ReplyView>)
    ensures
        execute_spec(FuncView::empty(), working_dir, replies) == (StepView::Done, working_dir),
{
}

/// Where the predicate of `if` evaluates to `true`, the value is that of
/// the second argument, with the requests and failures of the predicate
/// and of the second argument only. The third argument is not evaluated:
/// any other expression in its place gives the same.
pub proof fn lemma_if_true(
    predicate: ExpressionView,
    chosen: ExpressionView,
    unused: ExpressionView,
    other: ExpressionView,
    working_dir: Seq<char>,
    replies: Seq<ReplyView>,
    at: int,
)
    requires
        eval_to_text(predicate, working_dir, replies, at) matches Ok((text, _)) && text == "true"@,
    ensures
        eval_if(seq![predicate, chosen, unused], working_dir, replies, at) == eval_expression(
            chosen,
            working_dir,
            replies,
            eval_to_text(predicate, working_dir, replies, at)->Ok_0.1,
        ),
        eval_if(seq![predicate, chosen, unused], working_dir, replies, at) == eval_if(
            seq![predicate, chosen, other],
            working_dir,
            replies,
            at,
        ),
{
}

/// Where the predicate of `if` evaluates to `false`, the value is that of
/// the third argument, and the second argument is not evaluated.
pub proof fn lemma_if_false(
    predicate: ExpressionView,
    unused: ExpressionView,
    chosen: ExpressionView,
    other: ExpressionView,
    working_dir: Seq<char>,
    replies: Seq<ReplyView>,
    at: int,
)
    requires
        eval_to_text(predicate, working_dir, replies, at) matches Ok((text, _)) && text == "false"@,
    ensures
        eval_if(seq![predicate, unused, chosen], working_dir, replies, at) == eval_expression(
            chosen,
            working_dir,
            replies,
            eval_to_text(predicate, working_dir, replies, at)->Ok_0.1,
        ),
        eval_if(seq![predicate, unused, chosen], working_dir, replies, at) == eval_if(
            seq![predicate, other, chosen],
            working_dir,
            replies,
            at,
        ),
{
    reveal_strlit("true");
    reveal_strlit("false");
    assert("true"@[0] != "false"@[0]);
}

/// Where the predicate of `if` evaluates to a text that is neither `true`
/// nor `false`, `if` fails, neither branch is evaluated, and what is
/// reported holds that text between quotes.
pub proof fn lemma_if_other_predicate(
    arguments: Seq<ExpressionView>,
    working_dir: Seq<char>,
    replies: Seq<ReplyView>,
    at: int,
)
    requires
        arguments.len() == 3,
        eval_to_text(arguments[0], working_dir, replies, at) matches Ok((text, _)) && text
            != "true"@ && text != "false"@,
    ensures
        ({
            let text = eval_to_text(arguments[0], working_dir, replies, at)->Ok_0.0;
            let error = ExecutorErrorTypeView::BuiltinExecutionError(
                if_predicate_message(text),
            ).binary("if"@);
            &&& eval_if(arguments, working_dir, replies, at) == Err::<(ValueView, int), HaltView>(
                HaltView::Failed(error),
            )
            &&& error.message() == "if"@ + ": "@
                + "First argument must be true or false but was '"@ + text + "'"@
        }),
{
    let text = eval_to_text(arguments[0], working_dir, replies, at)->Ok_0.0;
    let head = "if"@ + ": "@;
    let start = "First argument must be true or false but was '"@;
    assert(head + (start + text + "'"@) =~= head + start + text + "'"@);
}

/// A call whose name reads `if` is evaluated as `if`.
pub proof fn lemma_if_by_name(
    arguments: Seq<ExpressionView>,
    working_dir: Seq<char>,
    replies: Seq<ReplyView>,
    at: int,
)
    ensures
        eval_expression(call("if"@, arguments), working_dir, replies, at) == eval_if(
            arguments,
            working_dir,
            replies,
            at,
        ),
{
    lemma_builtin_names();
    reveal_with_fuel(eval_expression, 2);
}

/// A change of directory stands for no text: where an expression
/// evaluates to one, evaluating that expression to a text fails.
pub proof fn lemma_directory_change_is_no_text(
    expression: ExpressionView,
    working_dir: Seq<char>,
    replies: Seq<ReplyView>,
    at: int,
)
    requires
        eval_expression(expression, working_dir, replies, at) matches Ok(
            (ValueView::DirectoryChange(_), _),
        ),
    ensures
        eval_to_text(expression, working_dir, replies, at) == Err::<(Seq<char>, int), HaltView>(
            HaltView::Failed(ExecutorErrorTypeView::CdAsValue.binary("cd"@)),
        ),
{
}

/// A call of `cd` never evaluates to a text, whatever its arguments are
/// and whatever the outside world replies: not even where the directory
/// is found.
pub proof fn lemma_cd_is_no_text(
    arguments: Seq<ExpressionView>,
    working_dir: Seq<char>,
    replies: Seq<ReplyView>,
    at: int,
)
    ensures
        eval_to_text(call("cd"@, arguments), working_dir, replies, at) is Err,
        eval_expression(call("cd"@, arguments), working_dir, replies, at) == eval_cd(
            arguments,
            working_dir,
            replies,
            at,
        ),
{
    lemma_builtin_names();
    reveal_with_fuel(eval_expression, 2);
    reveal_with_fuel(eval_to_text, 2);
}

proof fn lemma_cd_stops_arguments(
    arguments: Seq<ExpressionView>,
    from: int,
    place: int,
    inner: Seq<ExpressionView>,
    working_dir: Seq<char>,
    replies: Seq<ReplyView>,
    at: int,
)
    requires
        0 <= from <= place < arguments.len(),
        arguments[place] == call("cd"@, inner),
    ensures
        eval_args(arguments, from, working_dir, replies, at) is Err,
    decreases place - from,
{
    match eval_to_text(arguments[from], working_dir, replies, at) {
        Err(_) => {},
        Ok((_, next)) => {
            if from < place {
                lemma_cd_stops_arguments(
                    arguments,
                    from + 1,
                    place,
                    inner,
                    working_dir,
                    replies,
                    next,
                );
            } else {
                lemma_cd_is_no_text(inner, working_dir, replies, at);
            }
        },
    }
}

/// An external command with a call of `cd` among its arguments never
/// evaluates to a value: evaluation fails there, or before, or waits for
/// a reply that an argument before it needs.
pub proof fn lemma_cd_as_argument(
    name: Seq<char>,
    arguments: Seq<ExpressionView>,
    place: int,
    inner: Seq<ExpressionView>,
    working_dir: Seq<char>,
    replies: Seq<ReplyView>,
    at: int,
)
    requires
        0 <= place < arguments.len(),
        arguments[place] == call("cd"@, inner),
    ensures
        eval_command(name, arguments, working_dir, replies, at) is Err,
        name.len() > 0 && builtin_of(name) is None ==> eval_expression(
            call(name, arguments),
            working_dir,
            replies,
            at,
        ) is Err,
{
    lemma_cd_stops_arguments(arguments, 0, place, inner, working_dir, replies, at);
    reveal_with_fuel(eval_expression, 2);
}

} // verus!
