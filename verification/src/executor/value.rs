use crate::errors::{ExecutorError, ExecutorErrorView};
use crate::text::texts_view;
use vstd::prelude::*;

verus! {

/// An external command that is fully described and not started yet.
#[derive(Debug, PartialEq, Eq)]
pub struct Command {
    pub program: String,
    pub arguments: Vec<String>,
    pub working_dir: String,
    /// Where the command reads from: the output of the running process that
    /// this handle names, or else what the session itself reads from.
    pub input: Option<u64>,
}

/// The mathematical form of a [`Command`].
pub struct CommandView {
    pub program: Seq<char>,
    pub arguments: Seq<Seq<char>>,
    pub working_dir: Seq<char>,
    pub input: Option<u64>,
}

impl View for Command {
    type V = CommandView;

    open spec fn view(&self) -> CommandView {
        CommandView {
            program: self.program@,
            arguments: texts_view(self.arguments@),
            working_dir: self.working_dir@,
            input: self.input,
        }
    }
}

/// What an expression evaluates to.
#[derive(Debug, PartialEq, Eq)]
pub enum Value {
    /// A command for the caller to start.
    PendingCommand(Command),
    /// A text.
    Text(String),
    /// The directory to change to. It may only be the result of a whole line.
    DirectoryChange(String),
}

/// The mathematical form of a [`Value`].
pub enum ValueView {
    PendingCommand(CommandView),
    Text(Seq<char>),
    DirectoryChange(Seq<char>),
}

impl View for Value {
    type V = ValueView;

    open spec fn view(&self) -> ValueView {
        match self {
            Value::PendingCommand(c) => ValueView::PendingCommand(c@),
            Value::Text(s) => ValueView::Text(s@),
            Value::DirectoryChange(p) => ValueView::DirectoryChange(p@),
        }
    }
}

/// Work that only the outside world can do. Whoever drives an evaluation
/// does it and hands back a [`Reply`].
#[derive(Debug, PartialEq, Eq)]
pub enum Request {
    /// Start the command with the session's own streams and wait for its
    /// end. Answered by `Done`, or by `Failed` if it could not be started.
    Run(Command),
    /// Run the command to its end and keep what it wrote. Answered by
    /// `Output`, or by `Failed` if it could not be started.
    Capture(Command),
    /// Start the command with its output kept open for a later command to
    /// read, and let it run. Answered by `Spawned`, or by `Failed`.
    Spawn(Command),
    /// Look up the environment variable of that name. Answered by `Text`,
    /// by `Absent`, or by `Invalid` if its value is no text.
    GetEnv(String),
    /// Set the environment variable of the first name to the second text.
    /// Answered by `Done`, or by `Failed`.
    SetEnv(String, String),
    /// Find the directory that the target names, seen from the first path;
    /// no target means the user's home. Answered by `Text` with the
    /// canonical path, by `Invalid` if it is no directory, or by `Failed`.
    ResolveDirectory(String, Option<String>),
    /// Make the second path, seen from the first, canonical. Answered by
    /// `Text`, or by `Failed`.
    Canonicalize(String, String),
}

/// The mathematical form of a [`Request`].
pub enum RequestView {
    Run(CommandView),
    Capture(CommandView),
    Spawn(CommandView),
    GetEnv(Seq<char>),
    SetEnv(Seq<char>, Seq<char>),
    ResolveDirectory(Seq<char>, Option<Seq<char>>),
    Canonicalize(Seq<char>, Seq<char>),
}

impl View for Request {
    type V = RequestView;

    open spec fn view(&self) -> RequestView {
        match self {
            Request::Run(c) => RequestView::Run(c@),
            Request::Capture(c) => RequestView::Capture(c@),
            Request::Spawn(c) => RequestView::Spawn(c@),
            Request::GetEnv(n) => RequestView::GetEnv(n@),
            Request::SetEnv(n, v) => RequestView::SetEnv(n@, v@),
            Request::ResolveDirectory(b, t) => RequestView::ResolveDirectory(
                b@,
                match t {
                    Some(p) => Some(p@),
                    None => None,
                },
            ),
            Request::Canonicalize(b, p) => RequestView::Canonicalize(b@, p@),
        }
    }
}

/// What the outside world answers to a [`Request`].
#[derive(Debug, PartialEq, Eq)]
pub enum Reply {
    /// The work is done and there is nothing to tell.
    Done,
    /// What a captured command wrote to its output.
    Output(Vec<u8>),
    /// The handle of a process that was started and runs.
    Spawned(u64),
    /// The text asked for.
    Text(String),
    /// There is no such thing.
    Absent,
    /// The thing is there and is of the wrong kind.
    Invalid,
    /// The system refused; the text says why.
    Failed(String),
}

/// The mathematical form of a [`Reply`].
pub enum ReplyView {
    Done,
    Output(Seq<u8>),
    Spawned(u64),
    Text(Seq<char>),
    Absent,
    Invalid,
    Failed(Seq<char>),
}

impl View for Reply {
    type V = ReplyView;

    open spec fn view(&self) -> ReplyView {
        match self {
            Reply::Done => ReplyView::Done,
            Reply::Output(b) => ReplyView::Output(b@),
            Reply::Spawned(h) => ReplyView::Spawned(*h),
            Reply::Text(s) => ReplyView::Text(s@),
            Reply::Absent => ReplyView::Absent,
            Reply::Invalid => ReplyView::Invalid,
            Reply::Failed(m) => ReplyView::Failed(m@),
        }
    }
}

/// The views of a run of replies.
pub open spec fn replies_view(replies: Seq<Reply>) -> Seq<ReplyView> {
    replies.map_values(|r: Reply| r@)
}

/// Why an evaluation stopped short of a value.
#[derive(Debug, PartialEq, Eq)]
pub enum Halt {
    /// It failed.
    Failed(ExecutorError),
    /// It needs the reply to this request, which is the next one that the
    /// replies at hand do not answer.
    Awaiting(Request),
}

/// The mathematical form of a [`Halt`].
pub enum HaltView {
    Failed(ExecutorErrorView),
    Awaiting(RequestView),
}

impl View for Halt {
    type V = HaltView;

    open spec fn view(&self) -> HaltView {
        match self {
            Halt::Failed(e) => HaltView::Failed(e@),
            Halt::Awaiting(r) => HaltView::Awaiting(r@),
        }
    }
}

/// A value with the number of replies used up to it, or why there is none.
pub type Evaluated = Result<(ValueView, int), HaltView>;

/// A text with the number of replies used up to it, or why there is none.
pub type EvaluatedText = Result<(Seq<char>, int), HaltView>;

/// The view of what evaluating to a value returns.
pub open spec fn evaluated_view(result: Result<(Value, usize), Halt>) -> Evaluated {
    match result {
        Ok((value, used)) => Ok((value@, used as int)),
        Err(halt) => Err(halt@),
    }
}

/// The view of what evaluating to a text returns.
pub open spec fn evaluated_text_view(result: Result<(String, usize), Halt>) -> EvaluatedText {
    match result {
        Ok((text, used)) => Ok((text@, used as int)),
        Err(halt) => Err(halt@),
    }
}

} // verus!
