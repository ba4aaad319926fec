use crate::text::same_text;
use vstd::prelude::*;

pub mod cd;
pub mod get_env;
pub mod if_function;
pub mod pipe;
pub mod set_env;

verus! {

/// The operations that the evaluator does itself. No external program of
/// the same name can take their place.
#[derive(Debug, PartialEq, Eq, Clone, Copy)]
pub enum Builtin {
    If,
    Pipe,
    Cd,
    GetEnv,
    SetEnv,
}

/// The built-in that `name` names, if any.
pub open spec fn builtin_of(name: Seq<char>) -> Option<Builtin> {
    if name == "if"@ {
        Some(Builtin::If)
    } else if name == "pipe"@ || name == "|"@ {
        Some(Builtin::Pipe)
    } else if name == "cd"@ {
        Some(Builtin::Cd)
    } else if name == "get-env"@ {
        Some(Builtin::GetEnv)
    } else if name == "set-env"@ {
        Some(Builtin::SetEnv)
    } else {
        None
    }
}

impl Builtin {
    /// The built-in that `name` names, if any.
    pub fn from_name(name: &str) -> (builtin: Option<Builtin>)
        ensures
            builtin == builtin_of(name@),
    {
        if same_text(name, "if") {
            Some(Builtin::If)
        } else if same_text(name, "pipe") || same_text(name, "|") {
            Some(Builtin::Pipe)
        } else if same_text(name, "cd") {
            Some(Builtin::Cd)
        } else if same_text(name, "get-env") {
            Some(Builtin::GetEnv)
        } else if same_text(name, "set-env") {
            Some(Builtin::SetEnv)
        } else {
            None
        }
    }
}

} // verus!
