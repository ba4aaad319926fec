use crate::text::joined;
use vstd::prelude::*;
use vstd::string::StringExecFns;

verus! {

/// Why a line could not be split into tokens.
#[derive(Debug, PartialEq, Eq, Clone, Copy)]
pub enum LexerError {
    TrailingBackslash,
    UnclosedQuote,
    QuoteWithinArgument,
    OpenParethesisWithinArgument,
}

impl LexerError {
    /// The text that `message` gives.
    pub open spec fn message_spec(self) -> Seq<char> {
        match self {
            LexerError::TrailingBackslash =>
                "Lexer Error: Single backslash at the end of the command."@,
            LexerError::UnclosedQuote => "Lexer Error: Start of quoted string without end quote."@,
            LexerError::QuoteWithinArgument =>
                "Lexer Error: Quote found within argument. Either replace it with \\\"  or add a space before it if this is meant as a seperate argument."@,
            LexerError::OpenParethesisWithinArgument =>
                "Lexer Error: Open parenthesis '(' found within argument. Either replace it with \\(  or add a space before it if this is meant to be the start of a subcommand."@,
        }
    }

    /// What to tell the user.
    pub fn message(&self) -> (text: String)
        ensures
            text@ == self.message_spec(),
    {
        match self {
            LexerError::TrailingBackslash => String::from_str(
                "Lexer Error: Single backslash at the end of the command.",
            ),
            LexerError::UnclosedQuote => String::from_str(
                "Lexer Error: Start of quoted string without end quote.",
            ),
            LexerError::QuoteWithinArgument => String::from_str(
                "Lexer Error: Quote found within argument. Either replace it with \\\"  or add a space before it if this is meant as a seperate argument.",
            ),
            LexerError::OpenParethesisWithinArgument => String::from_str(
                "Lexer Error: Open parenthesis '(' found within argument. Either replace it with \\(  or add a space before it if this is meant to be the start of a subcommand.",
            ),
        }
    }
}

/// Why a token sequence is not a call tree.
#[derive(Debug, PartialEq, Eq, Clone, Copy)]
pub enum ParserError {
    ExpectedFunctionNameGotEOF,
    EndOfFunctionWhileStillTokens,
}

impl ParserError {
    /// The text that `message` gives.
    pub open spec fn message_spec(self) -> Seq<char> {
        match self {
            ParserError::ExpectedFunctionNameGotEOF =>
                "Parser Error: Expected a function, but instead got end of command."@,
            ParserError::EndOfFunctionWhileStillTokens =>
                "Parser Error: End of function but still more text after it. Hint: Do you have too many ')'?"@,
        }
    }

    /// What to tell the user.
    pub fn message(&self) -> (text: String)
        ensures
            text@ == self.message_spec(),
    {
        match self {
            ParserError::ExpectedFunctionNameGotEOF => String::from_str(
                "Parser Error: Expected a function, but instead got end of command.",
            ),
            ParserError::EndOfFunctionWhileStillTokens => String::from_str(
                "Parser Error: End of function but still more text after it. Hint: Do you have too many ')'?",
            ),
        }
    }
}

/// What went wrong while a call tree was evaluated.
#[derive(Debug, PartialEq, Eq)]
pub enum ExecutorErrorType {
    /// A program could not be started; the text says why.
    CommandStart(String),
    /// A built-in was called with the wrong number of arguments.
    IncorrectNumberOfArgsToBuiltinFunction,
    /// A built-in could not do its work; the text says why.
    BuiltinExecutionError(String),
    /// A change of directory stood where a value was needed.
    CdAsValue,
}

/// The mathematical form of an [`ExecutorErrorType`].
pub enum ExecutorErrorTypeView {
    CommandStart(Seq<char>),
    IncorrectNumberOfArgsToBuiltinFunction,
    BuiltinExecutionError(Seq<char>),
    CdAsValue,
}

impl View for ExecutorErrorType {
    type V = ExecutorErrorTypeView;

    open spec fn view(&self) -> ExecutorErrorTypeView {
        match self {
            ExecutorErrorType::CommandStart(m) => ExecutorErrorTypeView::CommandStart(m@),
            ExecutorErrorType::IncorrectNumberOfArgsToBuiltinFunction =>
                ExecutorErrorTypeView::IncorrectNumberOfArgsToBuiltinFunction,
            ExecutorErrorType::BuiltinExecutionError(m) =>
                ExecutorErrorTypeView::BuiltinExecutionError(m@),
            ExecutorErrorType::CdAsValue => ExecutorErrorTypeView::CdAsValue,
        }
    }
}

impl ExecutorErrorTypeView {
    /// The text that describes the error by itself.
    pub open spec fn message(self) -> Seq<char> {
        match self {
            ExecutorErrorTypeView::CommandStart(m) => m,
            ExecutorErrorTypeView::IncorrectNumberOfArgsToBuiltinFunction =>
                "Incorrect number of arguments"@,
            ExecutorErrorTypeView::BuiltinExecutionError(m) => m,
            ExecutorErrorTypeView::CdAsValue =>
                "Cannot use cd as a value. cd can only be used as the outermost function."@,
        }
    }

    /// This error, laid at the door of the program or built-in `name`.
    pub open spec fn binary(self, name: Seq<char>) -> ExecutorErrorView {
        ExecutorErrorView { error_type: self, binary_name: Some(name) }
    }

    /// This error, with nothing named.
    pub open spec fn unnamed(self) -> ExecutorErrorView {
        ExecutorErrorView { error_type: self, binary_name: None }
    }
}

impl ExecutorErrorType {
    /// This error, laid at the door of the program or built-in `binary_name`.
    pub fn binary(self, binary_name: String) -> (error: ExecutorError)
        ensures
            error@ == self@.binary(binary_name@),
    {
        ExecutorError { error_type: self, binary_name: Some(binary_name) }
    }
}

/// An evaluation error, with the program or built-in it concerns, if any.
#[derive(Debug, PartialEq, Eq)]
pub struct ExecutorError {
    pub error_type: ExecutorErrorType,
    pub binary_name: Option<String>,
}

/// The mathematical form of an [`ExecutorError`].
pub struct ExecutorErrorView {
    pub error_type: ExecutorErrorTypeView,
    pub binary_name: Option<Seq<char>>,
}

impl View for ExecutorError {
    type V = ExecutorErrorView;

    open spec fn view(&self) -> ExecutorErrorView {
        ExecutorErrorView {
            error_type: self.error_type@,
            binary_name: match self.binary_name {
                Some(name) => Some(name@),
                None => None,
            },
        }
    }
}

impl ExecutorErrorView {
    /// The text that `message` gives: the error's own text, behind the name
    /// and a colon where a program or built-in is named.
    pub open spec fn message(self) -> Seq<char> {
        match self.binary_name {
            Some(name) => name + ": "@ + self.error_type.message(),
            None => self.error_type.message(),
        }
    }
}

impl ExecutorError {
    /// An error of the given kind, with nothing named.
    pub fn from_type(error_type: ExecutorErrorType) -> (error: ExecutorError)
        ensures
            error@ == error_type@.unnamed(),
    {
        ExecutorError { error_type, binary_name: None }
    }

    /// The error of a program that could not be started, from what the
    /// system said about it.
    pub fn command_start(message: String) -> (error: ExecutorError)
        ensures
            error@ == ExecutorErrorTypeView::CommandStart(message@).unnamed(),
    {
        ExecutorError { error_type: ExecutorErrorType::CommandStart(message), binary_name: None }
    }

    /// The same error, laid at the door of the program or built-in `binary_name`.
    pub fn with(self, binary_name: String) -> (error: ExecutorError)
        ensures
            error@ == self@.error_type.binary(binary_name@),
    {
        ExecutorError { error_type: self.error_type, binary_name: Some(binary_name) }
    }

    /// What to tell the user.
    pub fn message(&self) -> (text: String)
        ensures
            text@ == self@.message(),
    {
        let own = match &self.error_type {
            ExecutorErrorType::CommandStart(m) => m.clone(),
            ExecutorErrorType::IncorrectNumberOfArgsToBuiltinFunction => String::from_str(
                "Incorrect number of arguments",
            ),
            ExecutorErrorType::BuiltinExecutionError(m) => m.clone(),
            ExecutorErrorType::CdAsValue => String::from_str(
                "Cannot use cd as a value. cd can only be used as the outermost function.",
            ),
        };
        match &self.binary_name {
            Some(name) => {
                let head = joined(name.as_str(), ": ");
                joined(head.as_str(), own.as_str())
            },
            None => own,
        }
    }
}

} // verus!
