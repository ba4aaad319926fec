use lishp::errors::{ExecutorError, ExecutorErrorType};
use lishp::executor::context::Context;
use lishp::executor::value::{Command, Halt, Reply, Request, Value};
use lishp::executor::{evaluate_expression_to_string, evaluate_func, execute, Step};
use lishp::lexer::lex;
use lishp::parser::{parse, Expression, Func};

fn line(text: &str) -> Func {
    parse(lex(text).unwrap()).unwrap()
}

fn here() -> Context {
    Context::new("/work".to_string())
}

fn command(program: &str, arguments: &[&str], input: Option<u64>) -> Command {
    Command {
        program: program.to_string(),
        arguments: arguments.iter().map(|a| a.to_string()).collect(),
        working_dir: "/work".to_string(),
        input,
    }
}

fn builtin_error(message: &str, binary: &str) -> ExecutorError {
    ExecutorError {
        error_type: ExecutorErrorType::BuiltinExecutionError(message.to_string()),
        binary_name: Some(binary.to_string()),
    }
}

fn arity_error(binary: &str) -> ExecutorError {
    ExecutorError {
        error_type: ExecutorErrorType::IncorrectNumberOfArgsToBuiltinFunction,
        binary_name: Some(binary.to_string()),
    }
}

#[test]
fn empty_call_does_nothing() {
    let mut context = here();
    let step = execute(&Func::empty(), &mut context, &vec![]);
    assert_eq!(step, Step::Done);
    assert_eq!(context.working_dir, "/work");
    let again = execute(&line(""), &mut context, &vec![Reply::Done, Reply::Absent]);
    assert_eq!(again, Step::Done);
    assert_eq!(context.working_dir, "/work");
}

#[test]
fn external_command_is_run_in_the_working_directory() {
    let mut context = here();
    let func = line("ls -l src");
    assert_eq!(
        evaluate_func(&func, &context, &vec![], 0),
        Ok((Value::PendingCommand(command("ls", &["-l", "src"], None)), 0))
    );
    assert_eq!(
        execute(&func, &mut context, &vec![]),
        Step::Need(Request::Run(command("ls", &["-l", "src"], None)))
    );
    assert_eq!(execute(&func, &mut context, &vec![Reply::Done]), Step::Done);
}

#[test]
fn command_that_does_not_start_is_reported_by_name() {
    let mut context = here();
    let step = execute(&line("nosuch"), &mut context, &vec![Reply::Failed("No such file or directory".to_string())]);
    let expected = ExecutorError {
        error_type: ExecutorErrorType::CommandStart("No such file or directory".to_string()),
        binary_name: Some("nosuch".to_string()),
    };
    assert_eq!(expected.message(), "nosuch: No such file or directory");
    assert_eq!(step, Step::Fail(expected));
}

#[test]
fn empty_name_prints_nothing_but_an_empty_text() {
    let mut context = here();
    assert_eq!(execute(&line("\"\" a"), &mut context, &vec![]), Step::Print("".to_string()));
}

#[test]
fn nested_command_is_captured_and_trimmed() {
    let context = here();
    let func = line("ls (echo src)");
    assert_eq!(
        evaluate_func(&func, &context, &vec![], 0),
        Err(Halt::Awaiting(Request::Capture(command("echo", &["src"], None))))
    );
    let replies = vec![Reply::Output(b"  src \n\n".to_vec())];
    assert_eq!(
        evaluate_func(&func, &context, &replies, 0),
        Ok((Value::PendingCommand(command("ls", &["  src"], None)), 1))
    );
}

#[test]
fn captured_output_that_is_no_text_is_read_with_replacements() {
    let context = here();
    let func = line("ls (printf x)");
    let replies = vec![Reply::Output(vec![0x61, 0xff, 0xc3, 0xa9, 0x0a])];
    assert_eq!(
        evaluate_func(&func, &context, &replies, 0),
        Ok((Value::PendingCommand(command("ls", &["a\u{fffd}\u{e9}"], None)), 1))
    );
}

#[test]
fn nested_commands_are_captured_left_to_right_depth_first() {
    let context = here();
    let func = line("a (b (c)) (d)");
    assert_eq!(
        evaluate_func(&func, &context, &vec![], 0),
        Err(Halt::Awaiting(Request::Capture(command("c", &[], None))))
    );
    let one = vec![Reply::Output(b"1\n".to_vec())];
    assert_eq!(
        evaluate_func(&func, &context, &one, 0),
        Err(Halt::Awaiting(Request::Capture(command("b", &["1"], None))))
    );
    let two = vec![Reply::Output(b"1\n".to_vec()), Reply::Output(b"2\n".to_vec())];
    assert_eq!(
        evaluate_func(&func, &context, &two, 0),
        Err(Halt::Awaiting(Request::Capture(command("d", &[], None))))
    );
    let three = vec![
        Reply::Output(b"1\n".to_vec()),
        Reply::Output(b"2\n".to_vec()),
        Reply::Output(b"3\n".to_vec()),
    ];
    assert_eq!(
        evaluate_func(&func, &context, &three, 0),
        Ok((Value::PendingCommand(command("a", &["2", "3"], None)), 3))
    );
}

#[test]
fn capture_that_does_not_start_fails_by_name() {
    let context = here();
    let replies = vec![Reply::Failed("not found".to_string())];
    assert_eq!(
        evaluate_func(&line("ls (nosuch)"), &context, &replies, 0),
        Err(Halt::Failed(ExecutorError {
            error_type: ExecutorErrorType::CommandStart("not found".to_string()),
            binary_name: Some("nosuch".to_string()),
        }))
    );
}

#[test]
fn name_may_come_from_a_command() {
    let context = here();
    let replies = vec![Reply::Output(b"ls\n".to_vec())];
    assert_eq!(
        evaluate_func(&line("(echo ls) -l"), &context, &replies, 0),
        Ok((Value::PendingCommand(command("ls", &["-l"], None)), 1))
    );
}

#[test]
fn if_true_leaves_the_false_branch_alone() {
    let mut context = here();
    let func = line("if true yes (get-env HOME)");
    assert_eq!(execute(&func, &mut context, &vec![]), Step::Print("yes".to_string()));
    let other = line("if false (get-env HOME) no");
    assert_eq!(execute(&other, &mut context, &vec![]), Step::Print("no".to_string()));
    let asked = line("if false yes (get-env HOME)");
    assert_eq!(
        execute(&asked, &mut context, &vec![]),
        Step::Need(Request::GetEnv("HOME".to_string()))
    );
}

#[test]
fn if_rejects_another_predicate_and_names_it() {
    let mut context = here();
    let step = execute(&line("if maybe (get-env A) (get-env B)"), &mut context, &vec![]);
    let expected = builtin_error("First argument must be true or false but was 'maybe'", "if");
    assert_eq!(expected.message(), "if: First argument must be true or false but was 'maybe'");
    assert_eq!(step, Step::Fail(expected));
}

#[test]
fn if_needs_three_arguments() {
    let mut context = here();
    assert_eq!(execute(&line("if true yes"), &mut context, &vec![]), Step::Fail(arity_error("if")));
    assert_eq!(execute(&line("if"), &mut context, &vec![]), Step::Fail(arity_error("if")));
    assert_eq!(arity_error("if").message(), "if: Incorrect number of arguments");
}

#[test]
fn if_predicate_may_be_a_command() {
    let context = here();
    let func = line("if (test -d x) (echo dir) (echo none)");
    assert_eq!(
        evaluate_func(&func, &context, &vec![], 0),
        Err(Halt::Awaiting(Request::Capture(command("test", &["-d", "x"], None))))
    );
    assert_eq!(
        evaluate_func(&func, &context, &vec![Reply::Output(b"false\n".to_vec())], 0),
        Ok((Value::PendingCommand(command("echo", &["none"], None)), 1))
    );
}

#[test]
fn pipe_of_three_commands_starts_all_but_the_last() {
    let mut context = here();
    let func = line("pipe (cat log) (grep x) (wc -l)");
    assert_eq!(
        execute(&func, &mut context, &vec![]),
        Step::Need(Request::Spawn(command("cat", &["log"], None)))
    );
    assert_eq!(
        execute(&func, &mut context, &vec![Reply::Spawned(7)]),
        Step::Need(Request::Spawn(command("grep", &["x"], Some(7))))
    );
    assert_eq!(
        execute(&func, &mut context, &vec![Reply::Spawned(7), Reply::Spawned(8)]),
        Step::Need(Request::Run(command("wc", &["-l"], Some(8))))
    );
    assert_eq!(
        execute(&func, &mut context, &vec![Reply::Spawned(7), Reply::Spawned(8), Reply::Done]),
        Step::Done
    );
}

#[test]
fn pipe_from_a_text_goes_through_echo() {
    let context = here();
    let func = line("| hello (wc)");
    assert_eq!(
        evaluate_func(&func, &context, &vec![], 0),
        Err(Halt::Awaiting(Request::Spawn(command("echo", &["hello"], None))))
    );
    assert_eq!(
        evaluate_func(&func, &context, &vec![Reply::Spawned(3)], 0),
        Ok((Value::PendingCommand(command("wc", &[], Some(3))), 1))
    );
    assert_eq!(
        evaluate_func(&line("pipe hello"), &context, &vec![], 0),
        Ok((Value::PendingCommand(command("echo", &["hello"], None)), 0))
    );
}

#[test]
fn pipe_failures() {
    let context = here();
    assert_eq!(evaluate_func(&line("pipe"), &context, &vec![], 0), Err(Halt::Failed(arity_error("pipe"))));
    assert_eq!(
        evaluate_func(&line("pipe (ls) wc"), &context, &vec![], 0),
        Err(Halt::Failed(ExecutorError {
            error_type: ExecutorErrorType::BuiltinExecutionError(
                "Expected command but instead attempted to pipe into string 'wc'".to_string()
            ),
            binary_name: None,
        }))
    );
    let found = vec![Reply::Text("/home/me".to_string())];
    assert_eq!(
        evaluate_func(&line("pipe (cd) (wc)"), &context, &found, 0),
        Err(Halt::Failed(builtin_error("cd cannot be piped from.", "pipe")))
    );
    assert_eq!(
        evaluate_func(&line("pipe (ls) (cd)"), &context, &found, 0),
        Err(Halt::Failed(builtin_error("cd cannot be piped from or into.", "pipe")))
    );
    assert_eq!(
        evaluate_func(&line("pipe (nosuch) (wc)"), &context, &vec![Reply::Failed("not found".to_string())], 0),
        Err(Halt::Failed(ExecutorError {
            error_type: ExecutorErrorType::CommandStart("not found".to_string()),
            binary_name: Some("nosuch".to_string()),
        }))
    );
}

#[test]
fn cd_without_arguments_goes_home() {
    let mut context = here();
    let func = line("cd");
    assert_eq!(
        execute(&func, &mut context, &vec![]),
        Step::Need(Request::ResolveDirectory("/work".to_string(), None))
    );
    assert_eq!(context.working_dir, "/work");
    let resolved = vec![Reply::Text("/home/me".to_string())];
    assert_eq!(
        evaluate_func(&func, &context, &resolved, 0),
        Ok((Value::DirectoryChange("/home/me".to_string()), 1))
    );
    assert_eq!(
        execute(&func, &mut context, &resolved),
        Step::Need(Request::Canonicalize("/work".to_string(), "/home/me".to_string()))
    );
    assert_eq!(context.working_dir, "/work");
    let confirmed = vec![Reply::Text("/home/me".to_string()), Reply::Text("/real/home/me".to_string())];
    assert_eq!(execute(&func, &mut context, &confirmed), Step::Done);
    assert_eq!(context.working_dir, "/real/home/me");
}

#[test]
fn cd_with_a_target() {
    let mut context = here();
    let func = line("cd src");
    assert_eq!(
        execute(&func, &mut context, &vec![]),
        Step::Need(Request::ResolveDirectory("/work".to_string(), Some("src".to_string())))
    );
    let confirmed = vec![Reply::Text("/work/src".to_string()), Reply::Text("/work/src".to_string())];
    assert_eq!(execute(&func, &mut context, &confirmed), Step::Done);
    assert_eq!(context.working_dir, "/work/src");
}

#[test]
fn cd_to_what_is_no_directory_fails_and_changes_nothing() {
    let mut context = here();
    let step = execute(&line("cd notes.txt"), &mut context, &vec![Reply::Invalid]);
    let expected = builtin_error("notes.txt: Not a directory", "cd");
    assert_eq!(expected.message(), "cd: notes.txt: Not a directory");
    assert_eq!(step, Step::Fail(expected));
    assert_eq!(context.working_dir, "/work");
    let missing = execute(&line("cd nowhere"), &mut context, &vec![Reply::Failed("No such file or directory".to_string())]);
    assert_eq!(missing, Step::Fail(builtin_error("No such file or directory", "cd")));
    assert_eq!(context.working_dir, "/work");
    let home = execute(&line("cd"), &mut context, &vec![Reply::Invalid]);
    assert_eq!(home, Step::Fail(builtin_error("~: Not a directory", "cd")));
}

#[test]
fn cd_that_cannot_be_confirmed_changes_nothing() {
    let mut context = here();
    let replies = vec![Reply::Text("/gone".to_string()), Reply::Failed("No such file or directory".to_string())];
    let step = execute(&line("cd /gone"), &mut context, &replies);
    assert_eq!(
        step,
        Step::Fail(builtin_error("Error canonicalizing path: No such file or directory", "cd"))
    );
    assert_eq!(context.working_dir, "/work");
}

#[test]
fn cd_takes_one_argument_at_most() {
    let mut context = here();
    assert_eq!(execute(&line("cd a b"), &mut context, &vec![]), Step::Fail(arity_error("cd")));
}

#[test]
fn cd_as_an_argument_is_an_error_either_way() {
    let mut context = here();
    let func = line("echo (cd)");
    assert_eq!(
        execute(&func, &mut context, &vec![]),
        Step::Need(Request::ResolveDirectory("/work".to_string(), None))
    );
    let found = execute(&func, &mut context, &vec![Reply::Text("/home/me".to_string())]);
    let expected = ExecutorError {
        error_type: ExecutorErrorType::CdAsValue,
        binary_name: Some("cd".to_string()),
    };
    assert_eq!(
        expected.message(),
        "cd: Cannot use cd as a value. cd can only be used as the outermost function."
    );
    assert_eq!(found, Step::Fail(expected));
    let not_found = execute(&func, &mut context, &vec![Reply::Failed("No such file or directory".to_string())]);
    assert_eq!(not_found, Step::Fail(builtin_error("No such file or directory", "cd")));
    assert_eq!(context.working_dir, "/work");
}

#[test]
fn cd_as_a_name_is_an_error() {
    let context = here();
    let expr = Expression::Function(Box::new(line("cd src")));
    assert_eq!(
        evaluate_expression_to_string(&expr, &context, &vec![Reply::Text("/work/src".to_string())], 0),
        Err(Halt::Failed(ExecutorError {
            error_type: ExecutorErrorType::CdAsValue,
            binary_name: Some("cd".to_string()),
        }))
    );
}

fn answer(variables: &mut Vec<(String, String)>, request: Request) -> Reply {
    match request {
        Request::GetEnv(name) => match variables.iter().find(|(n, _)| *n == name) {
            Some((_, value)) => Reply::Text(value.clone()),
            None => Reply::Absent,
        },
        Request::SetEnv(name, value) => {
            variables.retain(|(n, _)| *n != name);
            variables.push((name, value));
            Reply::Done
        }
        _ => Reply::Failed("not in this test".to_string()),
    }
}

fn run(variables: &mut Vec<(String, String)>, func: &Func) -> Step {
    let mut context = here();
    let mut replies = vec![];
    loop {
        match execute(func, &mut context, &replies) {
            Step::Need(request) => replies.push(answer(variables, request)),
            step => return step,
        }
    }
}

#[test]
fn set_env_then_get_env_gives_the_value_back() {
    let mut variables = vec![];
    assert_eq!(run(&mut variables, &line("set-env X 1")), Step::Print("1".to_string()));
    assert_eq!(run(&mut variables, &line("get-env X")), Step::Print("1".to_string()));
    assert_eq!(
        run(&mut variables, &line("echo (set-env Y 2) (get-env Y) (get-env X)")),
        Step::Fail(ExecutorError {
            error_type: ExecutorErrorType::CommandStart("not in this test".to_string()),
            binary_name: Some("echo".to_string()),
        })
    );
    assert_eq!(variables, vec![("X".to_string(), "1".to_string()), ("Y".to_string(), "2".to_string())]);
}

#[test]
fn get_env_of_what_is_not_set() {
    let mut variables = vec![];
    let step = run(&mut variables, &line("get-env NOT_THERE"));
    let expected = builtin_error("Variable not present", "get-env");
    assert_eq!(expected.message(), "get-env: Variable not present");
    assert_eq!(step, Step::Fail(expected));
}

#[test]
fn get_env_of_what_is_no_text() {
    let mut context = here();
    assert_eq!(
        execute(&line("get-env RAW"), &mut context, &vec![Reply::Invalid]),
        Step::Fail(builtin_error("Variable not valid unicode", "get-env"))
    );
}

#[test]
fn env_builtins_count_their_arguments() {
    let mut context = here();
    assert_eq!(execute(&line("get-env"), &mut context, &vec![]), Step::Fail(arity_error("get-env")));
    assert_eq!(execute(&line("get-env A B"), &mut context, &vec![]), Step::Fail(arity_error("get-env")));
    assert_eq!(execute(&line("set-env A"), &mut context, &vec![]), Step::Fail(arity_error("set-env")));
    assert_eq!(execute(&line("set-env A B C"), &mut context, &vec![]), Step::Fail(arity_error("set-env")));
}

#[test]
fn set_env_asks_with_both_texts() {
    let mut context = here();
    assert_eq!(
        execute(&line("set-env NAME (echo value)"), &mut context, &vec![Reply::Output(b"value\n".to_vec())]),
        Step::Need(Request::SetEnv("NAME".to_string(), "value".to_string()))
    );
    assert_eq!(
        execute(
            &line("set-env NAME value"),
            &mut context,
            &vec![Reply::Failed("invalid name".to_string())]
        ),
        Step::Fail(builtin_error("invalid name", "set-env"))
    );
}

#[test]
fn reply_of_the_wrong_kind_is_a_failure() {
    let mut context = here();
    assert_eq!(
        execute(&line("ls (echo a)"), &mut context, &vec![Reply::Done]),
        Step::Fail(ExecutorError {
            error_type: ExecutorErrorType::CommandStart("Unexpected reply".to_string()),
            binary_name: Some("echo".to_string()),
        })
    );
    assert_eq!(
        execute(&line("get-env A"), &mut context, &vec![Reply::Spawned(1)]),
        Step::Fail(builtin_error("Unexpected reply", "get-env"))
    );
}

#[test]
fn builtins_cannot_be_shadowed() {
    let context = here();
    assert_eq!(
        evaluate_func(&line("\"if\" true a b"), &context, &vec![], 0),
        Ok((Value::Text("a".to_string()), 0))
    );
    assert_eq!(
        evaluate_func(&line("iff true a b"), &context, &vec![], 0),
        Ok((Value::PendingCommand(command("iff", &["true", "a", "b"], None)), 0))
    );
}
