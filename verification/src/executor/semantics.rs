use crate::errors::{ExecutorErrorTypeView, ExecutorErrorView};
use crate::executor::builtin_functions::{builtin_of, Builtin};
use crate::executor::value::{
    CommandView, Evaluated, EvaluatedText, HaltView, ReplyView, RequestView, ValueView,
};
use crate::parser::{ExpressionView, FuncView};
use crate::text::captured_text;
use vstd::prelude::*;

verus! {

/// The reply that stands at position `at`, if the replies reach that far.
pub open spec fn reply_at(replies: Seq<ReplyView>, at: int) -> Option<ReplyView> {
    if 0 <= at < replies.len() {
        Some(replies[at])
    } else {
        None
    }
}

/// What is said of a reply that does not fit the request it answers.
pub open spec fn unexpected_reply() -> Seq<char> {
    "Unexpected reply"@
}

/// The failure of a built-in that was called with the wrong number of arguments.
pub open spec fn arity_failure(builtin: Seq<char>) -> HaltView {
    HaltView::Failed(ExecutorErrorTypeView::IncorrectNumberOfArgsToBuiltinFunction.binary(builtin))
}

/// The failure of a built-in that could not do its work.
pub open spec fn builtin_failure(message: Seq<char>, builtin: Seq<char>) -> HaltView {
    HaltView::Failed(ExecutorErrorTypeView::BuiltinExecutionError(message).binary(builtin))
}

/// The failure of a program that could not be started.
pub open spec fn start_failure(message: Seq<char>, program: Seq<char>) -> HaltView {
    HaltView::Failed(ExecutorErrorTypeView::CommandStart(message).binary(program))
}

/// What `if` says of a predicate that is neither `true` nor `false`.
pub open spec fn if_predicate_message(predicate: Seq<char>) -> Seq<char> {
    "First argument must be true or false but was '"@ + predicate + "'"@
}

/// What `pipe` says of a text that stands where a command is needed.
pub open spec fn pipe_into_text_message(text: Seq<char>) -> Seq<char> {
    "Expected command but instead attempted to pipe into string '"@ + text + "'"@
}

/// What `cd` says of a target that is no directory.
pub open spec fn not_a_directory_message(target: Seq<char>) -> Seq<char> {
    target + ": Not a directory"@
}

/// What is said when the directory to change to cannot be made canonical.
pub open spec fn canonicalize_message(reason: Seq<char>) -> Seq<char> {
    "Error canonicalizing path: "@ + reason
}

/// The command that writes `text` to its output.
pub open spec fn echo_command(text: Seq<char>, working_dir: Seq<char>) -> CommandView {
    CommandView { program: "echo"@, arguments: seq![text], working_dir, input: None }
}

/// The value of an expression. `replies` holds what the outside world
/// answered so far, in the order of the requests; `at` is how many of them
/// are used up. The result tells how many are used up afterwards, or the
/// first request that `replies` does not answer.
pub open spec fn eval_expression(
    expression: ExpressionView,
    working_dir: Seq<char>,
    replies: Seq<ReplyView>,
    at: int,
) -> Evaluated
    decreases expression, 0int,
{
    match expression {
        ExpressionView::String(text) => Ok((ValueView::Text(text), at)),
        ExpressionView::Function(func) => eval_func(*func, working_dir, replies, at),
    }
}

/// The text that a value stands for. A command is run and the text is what
/// it writes; a change of directory stands for no text.
pub open spec fn text_of_value(value: ValueView, replies: Seq<ReplyView>, at: int) -> EvaluatedText {
    match value {
        ValueView::Text(text) => Ok((text, at)),
        ValueView::DirectoryChange(_) => Err(
            HaltView::Failed(ExecutorErrorTypeView::CdAsValue.binary("cd"@)),
        ),
        ValueView::PendingCommand(command) => match reply_at(replies, at) {
            None => Err(HaltView::Awaiting(RequestView::Capture(command))),
            Some(ReplyView::Output(bytes)) => Ok((captured_text(bytes), at + 1)),
            Some(ReplyView::Failed(reason)) => Err(start_failure(reason, command.program)),
            Some(_) => Err(start_failure(unexpected_reply(), command.program)),
        },
    }
}

/// The text of an expression.
pub open spec fn eval_to_text(
    expression: ExpressionView,
    working_dir: Seq<char>,
    replies: Seq<ReplyView>,
    at: int,
) -> EvaluatedText
    decreases expression, 1int,
{
    match eval_expression(expression, working_dir, replies, at) {
        Err(halt) => Err(halt),
        Ok((value, next)) => text_of_value(value, replies, next),
    }
}

/// The value of a call: its name is evaluated to a text, which names a
/// built-in or else an external program.
pub open spec fn eval_func(func: FuncView, working_dir: Seq<char>, replies: Seq<ReplyView>, at: int) -> Evaluated
    decreases func, 0int,
{
    match eval_to_text(func.name, working_dir, replies, at) {
        Err(halt) => Err(halt),
        Ok((name, next)) => if name.len() == 0 {
            Ok((ValueView::Text(seq![]), next))
        } else {
            match builtin_of(name) {
                Some(Builtin::If) => eval_if(func.arguments, working_dir, replies, next),
                Some(Builtin::Pipe) => eval_pipe(func.arguments, working_dir, replies, next),
                Some(Builtin::Cd) => eval_cd(func.arguments, working_dir, replies, next),
                Some(Builtin::GetEnv) => eval_get_env(func.arguments, working_dir, replies, next),
                Some(Builtin::SetEnv) => eval_set_env(func.arguments, working_dir, replies, next),
                None => eval_command(name, func.arguments, working_dir, replies, next),
            }
        },
    }
}

/// The texts of the arguments from position `from` on, left to right.
pub open spec fn eval_args(
    arguments: Seq<ExpressionView>,
    from: int,
    working_dir: Seq<char>,
    replies: Seq<ReplyView>,
    at: int,
) -> Result<(Seq<Seq<char>>, int), HaltView>
    decreases arguments, arguments.len() - from,
{
    if from < 0 || from >= arguments.len() {
        Ok((seq![], at))
    } else {
        match eval_to_text(arguments[from], working_dir, replies, at) {
            Err(halt) => Err(halt),
            Ok((text, next)) => match eval_args(arguments, from + 1, working_dir, replies, next) {
                Err(halt) => Err(halt),
                Ok((texts, last)) => Ok((seq![text] + texts, last)),
            },
        }
    }
}

/// The external command `name` with the texts of the arguments.
pub open spec fn eval_command(
    name: Seq<char>,
    arguments: Seq<ExpressionView>,
    working_dir: Seq<char>,
    replies: Seq<ReplyView>,
    at: int,
) -> Evaluated
    decreases arguments, arguments.len() + 1,
{
    match eval_args(arguments, 0, working_dir, replies, at) {
        Err(halt) => Err(halt),
        Ok((texts, next)) => Ok(
            (
                ValueView::PendingCommand(
                    CommandView { program: name, arguments: texts, working_dir, input: None },
                ),
                next,
            ),
        ),
    }
}

/// `if`: the value of the second argument where the first is `true`, of
/// the third where it is `false`. The other one is not evaluated.
pub open spec fn eval_if(
    arguments: Seq<ExpressionView>,
    working_dir: Seq<char>,
    replies: Seq<ReplyView>,
    at: int,
) -> Evaluated
    decreases arguments, 0int,
{
    if arguments.len() != 3 {
        Err(arity_failure("if"@))
    } else {
        match eval_to_text(arguments[0], working_dir, replies, at) {
            Err(halt) => Err(halt),
            Ok((predicate, next)) => if predicate == "true"@ {
                eval_expression(arguments[1], working_dir, replies, next)
            } else if predicate == "false"@ {
                eval_expression(arguments[2], working_dir, replies, next)
            } else {
                Err(builtin_failure(if_predicate_message(predicate), "if"@))
            },
        }
    }
}

/// `pipe`: the last of the commands, reading what the one before it
/// writes, which reads what the one before that writes, and so on. All but
/// the last are started. A text in the first place is written by `echo`.
pub open spec fn eval_pipe(
    arguments: Seq<ExpressionView>,
    working_dir: Seq<char>,
    replies: Seq<ReplyView>,
    at: int,
) -> Evaluated
    decreases arguments, arguments.len() + 1,
{
    if arguments.len() == 0 {
        Err(arity_failure("pipe"@))
    } else {
        match eval_expression(arguments[0], working_dir, replies, at) {
            Err(halt) => Err(halt),
            Ok((ValueView::Text(text), next)) => pipe_stages(
                arguments,
                1,
                echo_command(text, working_dir),
                working_dir,
                replies,
                next,
            ),
            Ok((ValueView::PendingCommand(command), next)) => pipe_stages(
                arguments,
                1,
                command,
                working_dir,
                replies,
                next,
            ),
            Ok((ValueView::DirectoryChange(_), _)) => Err(
                builtin_failure("cd cannot be piped from."@, "pipe"@),
            ),
        }
    }
}

/// The stages of a pipe from position `from` on, where `previous` is the
/// command of the stage before, not started yet.
pub open spec fn pipe_stages(
    arguments: Seq<ExpressionView>,
    from: int,
    previous: CommandView,
    working_dir: Seq<char>,
    replies: Seq<ReplyView>,
    at: int,
) -> Evaluated
    decreases arguments, arguments.len() - from,
{
    if from < 0 || from >= arguments.len() {
        Ok((ValueView::PendingCommand(previous), at))
    } else {
        match eval_expression(arguments[from], working_dir, replies, at) {
            Err(halt) => Err(halt),
            Ok((ValueView::Text(text), _)) => Err(
                HaltView::Failed(
                    ExecutorErrorTypeView::BuiltinExecutionError(
                        pipe_into_text_message(text),
                    ).unnamed(),
                ),
            ),
            Ok((ValueView::DirectoryChange(_), _)) => Err(
                builtin_failure("cd cannot be piped from or into."@, "pipe"@),
            ),
            Ok((ValueView::PendingCommand(command), next)) => match reply_at(replies, next) {
                None => Err(HaltView::Awaiting(RequestView::Spawn(previous))),
                Some(ReplyView::Spawned(handle)) => pipe_stages(
                    arguments,
                    from + 1,
                    CommandView { input: Some(handle), ..command },
                    working_dir,
                    replies,
                    next + 1,
                ),
                Some(ReplyView::Failed(reason)) => Err(start_failure(reason, previous.program)),
                Some(_) => Err(start_failure(unexpected_reply(), previous.program)),
            },
        }
    }
}

/// `cd`: the directory that the one argument names, seen from the working
/// directory, or the user's home where there is no argument.
pub open spec fn eval_cd(
    arguments: Seq<ExpressionView>,
    working_dir: Seq<char>,
    replies: Seq<ReplyView>,
    at: int,
) -> Evaluated
    decreases arguments, 0int,
{
    if arguments.len() == 0 {
        resolved_directory(None, working_dir, replies, at)
    } else if arguments.len() == 1 {
        match eval_to_text(arguments[0], working_dir, replies, at) {
            Err(halt) => Err(halt),
            Ok((target, next)) => resolved_directory(Some(target), working_dir, replies, next),
        }
    } else {
        Err(arity_failure("cd"@))
    }
}

/// The change to the directory that `target` names, as the outside world
/// resolves it.
pub open spec fn resolved_directory(
    target: Option<Seq<char>>,
    working_dir: Seq<char>,
    replies: Seq<ReplyView>,
    at: int,
) -> Evaluated {
    match reply_at(replies, at) {
        None => Err(HaltView::Awaiting(RequestView::ResolveDirectory(working_dir, target))),
        Some(ReplyView::Text(path)) => Ok((ValueView::DirectoryChange(path), at + 1)),
        Some(ReplyView::Invalid) => Err(
            builtin_failure(
                not_a_directory_message(
                    match target {
                        Some(text) => text,
                        None => "~"@,
                    },
                ),
                "cd"@,
            ),
        ),
        Some(ReplyView::Failed(reason)) => Err(builtin_failure(reason, "cd"@)),
        Some(_) => Err(builtin_failure(unexpected_reply(), "cd"@)),
    }
}

/// `get-env`: the value of the environment variable that the one argument names.
pub open spec fn eval_get_env(
    arguments: Seq<ExpressionView>,
    working_dir: Seq<char>,
    replies: Seq<ReplyView>,
    at: int,
) -> Evaluated
    decreases arguments, 0int,
{
    if arguments.len() != 1 {
        Err(arity_failure("get-env"@))
    } else {
        match eval_to_text(arguments[0], working_dir, replies, at) {
            Err(halt) => Err(halt),
            Ok((name, next)) => looked_up(name, replies, next),
        }
    }
}

/// The value of the environment variable `name`, as the outside world gives it.
pub open spec fn looked_up(name: Seq<char>, replies: Seq<ReplyView>, at: int) -> Evaluated {
    match reply_at(replies, at) {
        None => Err(HaltView::Awaiting(RequestView::GetEnv(name))),
        Some(ReplyView::Text(value)) => Ok((ValueView::Text(value), at + 1)),
        Some(ReplyView::Absent) => Err(builtin_failure("Variable not present"@, "get-env"@)),
        Some(ReplyView::Invalid) => Err(builtin_failure("Variable not valid unicode"@, "get-env"@)),
        Some(ReplyView::Failed(reason)) => Err(builtin_failure(reason, "get-env"@)),
        Some(_) => Err(builtin_failure(unexpected_reply(), "get-env"@)),
    }
}

/// `set-env`: sets the environment variable that the first argument names
/// to the text of the second, which is also the value.
pub open spec fn eval_set_env(
    arguments: Seq<ExpressionView>,
    working_dir: Seq<char>,
    replies: Seq<ReplyView>,
    at: int,
) -> Evaluated
    decreases arguments, 0int,
{
    if arguments.len() != 2 {
        Err(arity_failure("set-env"@))
    } else {
        match eval_to_text(arguments[0], working_dir, replies, at) {
            Err(halt) => Err(halt),
            Ok((name, next)) => match eval_to_text(arguments[1], working_dir, replies, next) {
                Err(halt) => Err(halt),
                Ok((value, last)) => stored(name, value, replies, last),
            },
        }
    }
}

/// The value of `set-env` once the outside world has set the variable.
pub open spec fn stored(name: Seq<char>, value: Seq<char>, replies: Seq<ReplyView>, at: int) -> Evaluated {
    match reply_at(replies, at) {
        None => Err(HaltView::Awaiting(RequestView::SetEnv(name, value))),
        Some(ReplyView::Done) => Ok((ValueView::Text(value), at + 1)),
        Some(ReplyView::Failed(reason)) => Err(builtin_failure(reason, "set-env"@)),
        Some(_) => Err(builtin_failure(unexpected_reply(), "set-env"@)),
    }
}

/// What is to happen next for a line.
pub enum StepView {
    /// The outside world has work to do; its reply is to be added.
    Need(RequestView),
    /// The line is done once this text is printed.
    Print(Seq<char>),
    /// The line is done.
    Done,
    /// The line failed and this is to be reported.
    Fail(ExecutorErrorView),
}

/// What is to happen next for the line `func` in a session that stands in
/// `working_dir`, given the replies so far; and where the session stands
/// afterwards.
pub open spec fn execute_spec(func: FuncView, working_dir: Seq<char>, replies: Seq<ReplyView>) -> (
    StepView,
    Seq<char>,
) {
    if func.is_empty() {
        (StepView::Done, working_dir)
    } else {
        match eval_func(func, working_dir, replies, 0) {
            Err(HaltView::Awaiting(request)) => (StepView::Need(request), working_dir),
            Err(HaltView::Failed(error)) => (StepView::Fail(error), working_dir),
            Ok((value, next)) => finish(value, working_dir, replies, next),
        }
    }
}

/// What is to happen for a line that has the value `value`.
pub open spec fn finish(value: ValueView, working_dir: Seq<char>, replies: Seq<ReplyView>, at: int) -> (
    StepView,
    Seq<char>,
) {
    match value {
        ValueView::Text(text) => (StepView::Print(text), working_dir),
        ValueView::PendingCommand(command) => match reply_at(replies, at) {
            None => (StepView::Need(RequestView::Run(command)), working_dir),
            Some(ReplyView::Done) => (StepView::Done, working_dir),
            Some(ReplyView::Failed(reason)) => (
                StepView::Fail(
                    ExecutorErrorTypeView::CommandStart(reason).binary(command.program),
                ),
                working_dir,
            ),
            Some(_) => (
                StepView::Fail(
                    ExecutorErrorTypeView::CommandStart(unexpected_reply()).binary(
                        command.program,
                    ),
                ),
                working_dir,
            ),
        },
        ValueView::DirectoryChange(path) => match reply_at(replies, at) {
            None => (StepView::Need(RequestView::Canonicalize(working_dir, path)), working_dir),
            Some(ReplyView::Text(canonical)) => (StepView::Done, canonical),
            Some(ReplyView::Failed(reason)) => (
                StepView::Fail(
                    ExecutorErrorTypeView::BuiltinExecutionError(
                        canonicalize_message(reason),
                    ).binary("cd"@),
                ),
                working_dir,
            ),
            Some(_) => (
                StepView::Fail(
                    ExecutorErrorTypeView::BuiltinExecutionError(
                        canonicalize_message(unexpected_reply()),
                    ).binary("cd"@),
                ),
                working_dir,
            ),
        },
    }
}

} // verus!
