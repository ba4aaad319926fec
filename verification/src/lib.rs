//! A small expression language for an interactive shell: a line is split
//! into tokens, the tokens are parsed into a tree of calls, and the tree is
//! evaluated to a command to run, a text to print, or a directory to
//! change to.

use vstd::prelude::*;

pub mod completer;
pub mod errors;
pub mod executor;
pub mod flatten;
pub mod lexer;
pub mod parser;
pub mod prompt;
pub mod text;
pub mod words;

verus! {

/// The names of the built-in operations that are offered as commands.
pub const KEYWORDS: [&'static str; 5] = ["if", "pipe", "cd", "set-env", "get-env"];

} // verus!
