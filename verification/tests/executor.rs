use codecrafters_shell::executor::{execute, ExecutionResult};
use codecrafters_shell::parser::ParsedInput;

fn run(line: &str) -> (ExecutionResult, String) {
    let mut output = String::new();
    let res = execute(ParsedInput::from(line), &mut output);
    (res, output)
}

#[test]
fn executor_exit_stops() {
    assert_eq!(run("exit 3"), (ExecutionResult::Exit, String::new()));
}

#[test]
fn executor_echo_prints() {
    assert_eq!(run("echo  a   b"), (ExecutionResult::Continue, "a b\n".to_string()));
    assert_eq!(run("echo"), (ExecutionResult::Continue, "\n".to_string()));
}

#[test]
fn executor_empty_line_does_nothing() {
    assert_eq!(run("   "), (ExecutionResult::Continue, String::new()));
}

#[test]
fn executor_unknown_command() {
    assert_eq!(run("ls -l"), (ExecutionResult::Continue, "ls: command not found\n".to_string()));
}
