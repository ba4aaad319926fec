use crate::executor::context::Context;
use crate::text::{joined, replace, replace_spec, same_text};
use vstd::prelude::*;
use vstd::string::StringExecFns;

verus! {

/// How the line editor is being used when it asks for the indicator.
#[derive(Debug, PartialEq, Eq)]
pub enum PromptMode {
    Default,
    Emacs,
    ViNormal,
    ViInsert,
    Custom(String),
}

/// Whether a search through the history finds anything.
#[derive(Debug, PartialEq, Eq, Clone, Copy)]
pub enum SearchStatus {
    Passing,
    Failing,
}

/// The user's home directory: `home` where it is known, else `user_profile`.
pub fn get_home_dir(home: Option<String>, user_profile: Option<String>) -> (dir: Option<String>)
    ensures
        dir == (if home is Some {
            home
        } else {
            user_profile
        }),
{
    match home {
        Some(dir) => Some(dir),
        None => user_profile,
    }
}

/// The path as the prompt shows it: with `~` in the place of the home
/// directory wherever that stands in it, unless it is the home directory
/// itself or no home directory is known.
pub open spec fn normalise_path_spec(path: Seq<char>, home: Option<Seq<char>>) -> Seq<char> {
    match home {
        Some(dir) => if path != dir {
            replace_spec(path, dir, "~"@)
        } else {
            path
        },
        None => path,
    }
}

/// The path as the prompt shows it.
pub fn normalise_path(path: String, home: Option<&str>) -> (shown: String)
    ensures
        shown@ == normalise_path_spec(
            path@,
            match home {
                Some(dir) => Some(dir@),
                None => None,
            },
        ),
{
    match home {
        Some(dir) => {
            if !same_text(path.as_str(), dir) {
                replace(path.as_str(), dir, "~")
            } else {
                path
            }
        },
        None => path,
    }
}

/// What the line editor shows while it searches the history for `term`.
pub open spec fn history_search_indicator_spec(status: SearchStatus, term: Seq<char>) -> Seq<char> {
    match status {
        SearchStatus::Passing => "("@ + "reverse-search: "@ + term + ") "@,
        SearchStatus::Failing => "("@ + "failing "@ + "reverse-search: "@ + term + ") "@,
    }
}

/// What the line editor shows in front of the text, by mode.
pub open spec fn indicator_spec(mode: PromptMode) -> Seq<char> {
    match mode {
        PromptMode::Default => "〉"@,
        PromptMode::Emacs => "〉"@,
        PromptMode::ViNormal => "〉"@,
        PromptMode::ViInsert => ": "@,
        PromptMode::Custom(name) => "("@ + name@ + ")"@,
    }
}

/// The prompt of a session: it shows where the session stands.
pub struct LishpPrompt<'a> {
    pub context: &'a Context,
}

impl<'a> LishpPrompt<'a> {
    /// The prompt of the session `context`.
    pub fn new(context: &'a Context) -> (prompt: Self)
        ensures
            prompt.context == context,
    {
        LishpPrompt { context }
    }

    /// The left part of the prompt: the working directory, with `~` for
    /// the home directory `home`.
    pub fn render_prompt_left(&self, home: Option<&str>) -> (shown: String)
        ensures
            shown@ == normalise_path_spec(
                self.context@,
                match home {
                    Some(dir) => Some(dir@),
                    None => None,
                },
            ),
    {
        normalise_path(self.context.working_dir.clone(), home)
    }

    /// The right part of the prompt, which is empty.
    pub fn render_prompt_right(&self) -> (shown: String)
        ensures
            shown@ == Seq::<char>::empty(),
    {
        String::new()
    }

    /// What stands between the prompt and the text.
    pub fn render_prompt_indicator(&self, prompt_mode: &PromptMode) -> (shown: String)
        ensures
            shown@ == indicator_spec(*prompt_mode),
    {
        match prompt_mode {
            PromptMode::Default => String::from_str("〉"),
            PromptMode::Emacs => String::from_str("〉"),
            PromptMode::ViNormal => String::from_str("〉"),
            PromptMode::ViInsert => String::from_str(": "),
            PromptMode::Custom(name) => {
                let start = joined("(", name.as_str());
                joined(start.as_str(), ")")
            },
        }
    }

    /// What stands in front of the further lines of a text of several lines.
    pub fn render_prompt_multiline_indicator(&self) -> (shown: String)
        ensures
            shown@ == "::: "@,
    {
        String::from_str("::: ")
    }

    /// What is shown while the history is searched for `term`.
    pub fn render_prompt_history_search_indicator(&self, status: SearchStatus, term: &str) -> (shown:
        String)
        ensures
            shown@ == history_search_indicator_spec(status, term@),
    {
        let start = match status {
            SearchStatus::Passing => String::from_str("("),
            SearchStatus::Failing => joined("(", "failing "),
        };
        let named = joined(start.as_str(), "reverse-search: ");
        let with_term = joined(named.as_str(), term);
        joined(with_term.as_str(), ") ")
    }
}

} // verus!
