use lishp::completer::{keywords, LishpCompleter, Span, Suggestion};
use lishp::errors::{ExecutorError, ExecutorErrorType};
use lishp::executor::builtin_functions::Builtin;
use lishp::executor::context::Context;
use lishp::prompt::{get_home_dir, normalise_path, LishpPrompt, PromptMode, SearchStatus};
use lishp::text::{has_prefix, joined, replace, same_text, text_of_output, trim_end};
use lishp::KEYWORDS;

fn offer(value: &str, start: usize, end: usize) -> Suggestion {
    Suggestion {
        value: value.to_string(),
        description: None,
        span: Span { start, end },
        append_whitespace: true,
    }
}

fn completer() -> LishpCompleter {
    LishpCompleter::new(vec!["ls".to_string(), "cat".to_string(), "cargo".to_string()])
}

#[test]
fn completer_knows_programs_and_keywords_in_order() {
    let names = completer().commands;
    assert_eq!(names, vec!["cargo", "cat", "cd", "get-env", "if", "ls", "pipe", "set-env"]);
    assert_eq!(keywords(), KEYWORDS.to_vec());
}

#[test]
fn completes_the_command_at_the_start() {
    let found = completer().complete("ca", 2);
    assert_eq!(found, vec![offer("cargo", 0, 2), offer("cat", 0, 2)]);
    let all = completer().complete("", 0);
    assert_eq!(all.len(), 8);
    assert_eq!(all[0], offer("cargo", 0, 0));
}

#[test]
fn completes_the_command_behind_an_opening_parenthesis() {
    assert_eq!(completer().complete("ls (c", 5).len(), 3);
    assert_eq!(completer().complete("ls (ca", 6), vec![offer("cargo", 4, 6), offer("cat", 4, 6)]);
    assert_eq!(completer().complete("ls (", 4).len(), 8);
    assert_eq!(completer().complete("ls (", 4)[5], offer("ls", 4, 4));
}

#[test]
fn offers_nothing_for_arguments() {
    assert_eq!(completer().complete("ls c", 4), vec![]);
    assert_eq!(completer().complete("ls ", 3), vec![]);
    assert_eq!(completer().complete("ls (cat x)", 10), vec![]);
    assert_eq!(completer().complete("ls \"c", 5), vec![]);
}

#[test]
fn completes_only_what_stands_before_the_cursor() {
    assert_eq!(completer().complete("ca rgo", 2), vec![offer("cargo", 0, 2), offer("cat", 0, 2)]);
    assert_eq!(completer().complete("é", 1), vec![]);
    assert_eq!(completer().complete("ls", 7), vec![]);
}

#[test]
fn offers_escapes_behind_a_backslash() {
    let found = completer().complete("ls a\\", 5);
    assert_eq!(found.len(), 5);
    assert_eq!(
        found[0],
        Suggestion {
            value: "\\\\".to_string(),
            description: Some("Backslash character".to_string()),
            span: Span { start: 4, end: 5 },
            append_whitespace: false,
        }
    );
    assert_eq!(found[1].value, "\\ ");
    assert_eq!(found[2].value, "\\\"");
    assert_eq!(found[3].value, "\\(");
    assert_eq!(found[4].value, "\\)");
    assert_eq!(found[4].description, Some("Close bracket character".to_string()));
}

#[test]
fn prompt_shows_the_working_directory() {
    let context = Context::new("/home/me/src".to_string());
    let prompt = LishpPrompt::new(&context);
    assert_eq!(prompt.render_prompt_left(Some("/home/me")), "~/src");
    assert_eq!(prompt.render_prompt_left(None), "/home/me/src");
    assert_eq!(prompt.render_prompt_left(Some("/home/you")), "/home/me/src");
    assert_eq!(prompt.render_prompt_right(), "");
    assert_eq!(prompt.render_prompt_multiline_indicator(), "::: ");
    let home = Context::new("/home/me".to_string());
    assert_eq!(LishpPrompt::new(&home).render_prompt_left(Some("/home/me")), "/home/me");
}

#[test]
fn prompt_indicators() {
    let context = Context::new("/".to_string());
    let prompt = LishpPrompt::new(&context);
    assert_eq!(prompt.render_prompt_indicator(&PromptMode::Default), "〉");
    assert_eq!(prompt.render_prompt_indicator(&PromptMode::Emacs), "〉");
    assert_eq!(prompt.render_prompt_indicator(&PromptMode::ViNormal), "〉");
    assert_eq!(prompt.render_prompt_indicator(&PromptMode::ViInsert), ": ");
    assert_eq!(prompt.render_prompt_indicator(&PromptMode::Custom("x".to_string())), "(x)");
    assert_eq!(
        prompt.render_prompt_history_search_indicator(SearchStatus::Passing, "ls"),
        "(reverse-search: ls) "
    );
    assert_eq!(
        prompt.render_prompt_history_search_indicator(SearchStatus::Failing, "ls"),
        "(failing reverse-search: ls) "
    );
}

#[test]
fn home_directory_is_the_first_that_is_known() {
    assert_eq!(get_home_dir(Some("/h".to_string()), Some("C:\\u".to_string())), Some("/h".to_string()));
    assert_eq!(get_home_dir(None, Some("C:\\u".to_string())), Some("C:\\u".to_string()));
    assert_eq!(get_home_dir(None, None), None);
}

#[test]
fn normalise_path_replaces_every_home() {
    assert_eq!(normalise_path("/h/a/h/b".to_string(), Some("/h")), "~/a~/b");
    assert_eq!(normalise_path("/h".to_string(), Some("/h")), "/h");
    assert_eq!(normalise_path("ab".to_string(), Some("")), "~a~b~");
}

#[test]
fn text_functions() {
    assert_eq!(replace("aaa", "aa", "b"), "ba");
    assert_eq!(replace("abcabc", "bc", ""), "aa");
    assert_eq!(replace("", "", "x"), "x");
    assert_eq!(replace("", "a", "x"), "");
    assert_eq!(trim_end(" a b \t\n"), " a b");
    assert_eq!(trim_end("\u{3000}\n"), "");
    assert_eq!(trim_end(""), "");
    assert_eq!(joined("a", "b"), "ab");
    assert!(same_text("if", "if"));
    assert!(!same_text("if", "iff"));
    assert!(!same_text("ab", "ac"));
    assert!(has_prefix("cargo", "ca"));
    assert!(has_prefix("cargo", ""));
    assert!(!has_prefix("ca", "cargo"));
    assert!(!has_prefix("cargo", "cb"));
    assert_eq!(text_of_output(&b"hi\xe2\x82\xac \n".to_vec()), "hi\u{20ac}");
    assert_eq!(text_of_output(&vec![0x80, 0x0a]), "\u{fffd}");
}

#[test]
fn builtin_names() {
    assert_eq!(Builtin::from_name("if"), Some(Builtin::If));
    assert_eq!(Builtin::from_name("pipe"), Some(Builtin::Pipe));
    assert_eq!(Builtin::from_name("|"), Some(Builtin::Pipe));
    assert_eq!(Builtin::from_name("cd"), Some(Builtin::Cd));
    assert_eq!(Builtin::from_name("get-env"), Some(Builtin::GetEnv));
    assert_eq!(Builtin::from_name("set-env"), Some(Builtin::SetEnv));
    assert_eq!(Builtin::from_name("echo"), None);
    assert_eq!(Builtin::from_name(""), None);
    assert_eq!(Builtin::from_name("IF"), None);
}

#[test]
fn executor_error_is_named_by_with() {
    let plain = ExecutorError::command_start("denied".to_string());
    assert_eq!(plain.message(), "denied");
    let named = plain.with("ls".to_string());
    assert_eq!(named.binary_name, Some("ls".to_string()));
    assert_eq!(named.message(), "ls: denied");
    let renamed = named.with("cat".to_string());
    assert_eq!(renamed.message(), "cat: denied");
    let typed = ExecutorError::from_type(ExecutorErrorType::BuiltinExecutionError("bad".to_string()));
    assert_eq!(typed.binary_name, None);
    assert_eq!(ExecutorErrorType::CdAsValue.binary("cd".to_string()).binary_name, Some("cd".to_string()));
}
