use crate::executor::builtin_functions::{builtin_of, Builtin};
use crate::executor::semantics::{
    echo_command, eval_args, eval_cd, eval_command, eval_expression, eval_func, eval_get_env,
    eval_if, eval_pipe, eval_set_env, eval_to_text, execute_spec, pipe_stages, text_of_value,
};
use crate::executor::value::{CommandView, HaltView, ReplyView, ValueView};
use crate::parser::{ExpressionView, FuncView};
use vstd::prelude::*;

verus! {

/// Whether `later` holds the replies of `earlier` and perhaps more behind them.
pub open spec fn extends(later: Seq<ReplyView>, earlier: Seq<ReplyView>) -> bool {
    &&& earlier.len() <= later.len()
    &&& forall|i: int| 0 <= i < earlier.len() ==> later[i] == earlier[i]
}

/// Whether an evaluation came to an end: it has a value or failed, and
/// waits for nothing.
pub open spec fn settled<T>(result: Result<(T, int), HaltView>) -> bool {
    !(result matches Err(HaltView::Awaiting(_)))
}

/// What an evaluation that came to an end gave, it gives again when it is
/// run anew with more replies behind those it had; and it uses replies
/// from `at` onwards only. This is what lets a line be evaluated from the
/// start each time a reply has come in.
pub open spec fn replays<T>(
    before: Result<(T, int), HaltView>,
    after: Result<(T, int), HaltView>,
    at: int,
) -> bool {
    &&& settled(before) ==> after == before
    &&& before matches Ok((_, used)) ==> at <= used
}

proof fn lemma_replay_text_of_value(
    value: ValueView,
    replies: Seq<ReplyView>,
    more: Seq<ReplyView>,
    at: int,
)
    requires
        extends(more, replies),
        0 <= at,
    ensures
        replays(text_of_value(value, replies, at), text_of_value(value, more, at), at),
{
}

/// The value of an expression replays: see [`replays`].
pub proof fn lemma_replay_expression(
    expression: ExpressionView,
    working_dir: Seq<char>,
    replies: Seq<ReplyView>,
    more: Seq<ReplyView>,
    at: int,
)
    requires
        extends(more, replies),
        0 <= at,
    ensures
        replays(
            eval_expression(expression, working_dir, replies, at),
            eval_expression(expression, working_dir, more, at),
            at,
        ),
    decreases expression, 0int,
{
    match expression {
        ExpressionView::String(_) => {},
        ExpressionView::Function(func) => {
            lemma_replay_func(*func, working_dir, replies, more, at);
        },
    }
}

/// The text of an expression replays: see [`replays`].
pub proof fn lemma_replay_to_text(
    expression: ExpressionView,
    working_dir: Seq<char>,
    replies: Seq<ReplyView>,
    more: Seq<ReplyView>,
    at: int,
)
    requires
        extends(more, replies),
        0 <= at,
    ensures
        replays(
            eval_to_text(expression, working_dir, replies, at),
            eval_to_text(expression, working_dir, more, at),
            at,
        ),
    decreases expression, 1int,
{
    lemma_replay_expression(expression, working_dir, replies, more, at);
    if let Ok((value, next)) = eval_expression(expression, working_dir, replies, at) {
        lemma_replay_text_of_value(value, replies, more, next);
    }
}

/// The value of a call replays: see [`replays`].
pub proof fn lemma_replay_func(
    func: FuncView,
    working_dir: Seq<char>,
    replies: Seq<ReplyView>,
    more: Seq<ReplyView>,
    at: int,
)
    requires
        extends(more, replies),
        0 <= at,
    ensures
        replays(
            eval_func(func, working_dir, replies, at),
            eval_func(func, working_dir, more, at),
            at,
        ),
    decreases func, 0int,
{
    lemma_replay_to_text(func.name, working_dir, replies, more, at);
    if let Ok((name, next)) = eval_to_text(func.name, working_dir, replies, at) {
        if name.len() != 0 {
            match builtin_of(name) {
                Some(Builtin::If) => {
                    lemma_replay_if(func.arguments, working_dir, replies, more, next);
                },
                Some(Builtin::Pipe) => {
                    lemma_replay_pipe(func.arguments, working_dir, replies, more, next);
                },
                Some(Builtin::Cd) => {
                    lemma_replay_cd(func.arguments, working_dir, replies, more, next);
                },
                Some(Builtin::GetEnv) => {
                    lemma_replay_get_env(func.arguments, working_dir, replies, more, next);
                },
                Some(Builtin::SetEnv) => {
                    lemma_replay_set_env(func.arguments, working_dir, replies, more, next);
                },
                None => {
                    lemma_replay_command(name, func.arguments, working_dir, replies, more, next);
                },
            }
        }
    }
}

proof fn lemma_replay_args(
    arguments: Seq<ExpressionView>,
    from: int,
    working_dir: Seq<char>,
    replies: Seq<ReplyView>,
    more: Seq<ReplyView>,
    at: int,
)
    requires
        extends(more, replies),
        0 <= at,
    ensures
        replays(
            eval_args(arguments, from, working_dir, replies, at),
            eval_args(arguments, from, working_dir, more, at),
            at,
        ),
    decreases arguments, arguments.len() - from,
{
    if 0 <= from < arguments.len() {
        lemma_replay_to_text(arguments[from], working_dir, replies, more, at);
        if let Ok((_, next)) = eval_to_text(arguments[from], working_dir, replies, at) {
            lemma_replay_args(arguments, from + 1, working_dir, replies, more, next);
        }
    }
}

proof fn lemma_replay_command(
    name: Seq<char>,
    arguments: Seq<ExpressionView>,
    working_dir: Seq<char>,
    replies: Seq<ReplyView>,
    more: Seq<ReplyView>,
    at: int,
)
    requires
        extends(more, replies),
        0 <= at,
    ensures
        replays(
            eval_command(name, arguments, working_dir, replies, at),
            eval_command(name, arguments, working_dir, more, at),
            at,
        ),
    decreases arguments, arguments.len() + 1,
{
    lemma_replay_args(arguments, 0, working_dir, replies, more, at);
}

proof fn lemma_replay_if(
    arguments: Seq<ExpressionView>,
    working_dir: Seq<char>,
    replies: Seq<ReplyView>,
    more: Seq<ReplyView>,
    at: int,
)
    requires
        extends(more, replies),
        0 <= at,
    ensures
        replays(
            eval_if(arguments, working_dir, replies, at),
            eval_if(arguments, working_dir, more, at),
            at,
        ),
    decreases arguments, 0int,
{
    if arguments.len() == 3 {
        lemma_replay_to_text(arguments[0], working_dir, replies, more, at);
        if let Ok((predicate, next)) = eval_to_text(arguments[0], working_dir, replies, at) {
            if predicate == "true"@ {
                lemma_replay_expression(arguments[1], working_dir, replies, more, next);
            } else if predicate == "false"@ {
                lemma_replay_expression(arguments[2], working_dir, replies, more, next);
            }
        }
    }
}

proof fn lemma_replay_pipe(
    arguments: Seq<ExpressionView>,
    working_dir: Seq<char>,
    replies: Seq<ReplyView>,
    more: Seq<ReplyView>,
    at: int,
)
    requires
        extends(more, replies),
        0 <= at,
    ensures
        replays(
            eval_pipe(arguments, working_dir, replies, at),
            eval_pipe(arguments, working_dir, more, at),
            at,
        ),
    decreases arguments, arguments.len() + 1,
{
    if arguments.len() > 0 {
        lemma_replay_expression(arguments[0], working_dir, replies, more, at);
        match eval_expression(arguments[0], working_dir, replies, at) {
            Ok((ValueView::Text(text), next)) => {
                lemma_replay_pipe_stages(
                    arguments,
                    1,
                    echo_command(text, working_dir),
                    working_dir,
                    replies,
                    more,
                    next,
                );
            },
            Ok((ValueView::PendingCommand(command), next)) => {
                lemma_replay_pipe_stages(arguments, 1, command, working_dir, replies, more, next);
            },
            _ => {},
        }
    }
}

proof fn lemma_replay_pipe_stages(
    arguments: Seq<ExpressionView>,
    from: int,
    previous: CommandView,
    working_dir: Seq<char>,
    replies: Seq<ReplyView>,
    more: Seq<ReplyView>,
    at: int,
)
    requires
        extends(more, replies),
        0 <= at,
    ensures
        replays(
            pipe_stages(arguments, from, previous, working_dir, replies, at),
            pipe_stages(arguments, from, previous, working_dir, more, at),
            at,
        ),
    decreases arguments, arguments.len() - from,
{
    if 0 <= from < arguments.len() {
        lemma_replay_expression(arguments[from], working_dir, replies, more, at);
        if let Ok((ValueView::PendingCommand(command), next)) = eval_expression(
            arguments[from],
            working_dir,
            replies,
            at,
        ) {
            if 0 <= next < replies.len() {
                if let ReplyView::Spawned(handle) = replies[next] {
                    lemma_replay_pipe_stages(
                        arguments,
                        from + 1,
                        CommandView { input: Some(handle), ..command },
                        working_dir,
                        replies,
                        more,
                        next + 1,
                    );
                }
            }
        }
    }
}

proof fn lemma_replay_cd(
    arguments: Seq<ExpressionView>,
    working_dir: Seq<char>,
    replies: Seq<ReplyView>,
    more: Seq<ReplyView>,
    at: int,
)
    requires
        extends(more, replies),
        0 <= at,
    ensures
        replays(
            eval_cd(arguments, working_dir, replies, at),
            eval_cd(arguments, working_dir, more, at),
            at,
        ),
    decreases arguments, 0int,
{
    if arguments.len() == 1 {
        lemma_replay_to_text(arguments[0], working_dir, replies, more, at);
    }
}

proof fn lemma_replay_get_env(
    arguments: Seq<ExpressionView>,
    working_dir: Seq<char>,
    replies: Seq<ReplyView>,
    more: Seq<ReplyView>,
    at: int,
)
    requires
        extends(more, replies),
        0 <= at,
    ensures
        replays(
            eval_get_env(arguments, working_dir, replies, at),
            eval_get_env(arguments, working_dir, more, at),
            at,
        ),
    decreases arguments, 0int,
{
    if arguments.len() == 1 {
        lemma_replay_to_text(arguments[0], working_dir, replies, more, at);
    }
}

proof fn lemma_replay_set_env(
    arguments: Seq<ExpressionView>,
    working_dir: Seq<char>,
    replies: Seq<ReplyView>,
    more: Seq<ReplyView>,
    at: int,
)
    requires
        extends(more, replies),
        0 <= at,
    ensures
        replays(
            eval_set_env(arguments, working_dir, replies, at),
            eval_set_env(arguments, working_dir, more, at),
            at,
        ),
    decreases arguments, 0int,
{
    if arguments.len() == 2 {
        lemma_replay_to_text(arguments[0], working_dir, replies, more, at);
        if let Ok((_, next)) = eval_to_text(arguments[0], working_dir, replies, at) {
            lemma_replay_to_text(arguments[1], working_dir, replies, more, next);
        }
    }
}

/// A line that is done stays done: once `execute` tells anything but a
/// request, it tells the same, and leaves the session in the same place,
/// whatever replies are added behind those it had.
pub proof fn lemma_replay_line(
    func: FuncView,
    working_dir: Seq<char>,
    replies: Seq<ReplyView>,
    more: Seq<ReplyView>,
)
    requires
        extends(more, replies),
        !(execute_spec(func, working_dir, replies).0 is Need),
    ensures
        execute_spec(func, working_dir, more) == execute_spec(func, working_dir, replies),
{
    if !func.is_empty() {
        lemma_replay_func(func, working_dir, replies, more, 0);
    }
}

} // verus!
