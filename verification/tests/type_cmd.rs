use codecrafters_shell::commands::type_cmd::TypeCmd;
use codecrafters_shell::execution::ExecutionResult;

fn build_args(args: &[&str]) -> Vec<String> {
    args.iter().map(|s| s.to_string()).collect()
}

/// Runs `type` with the search path answering from `programs`
/// (name, file) pairs.
fn run_type(cmd: &TypeCmd, programs: &[(&str, &str)]) -> (ExecutionResult, String, String) {
    let found: Vec<Option<String>> = cmd
        .lookup_names()
        .into_iter()
        .map(|name| {
            name.and_then(|n| {
                programs.iter().find(|(p, _)| *p == n).map(|(_, file)| file.to_string())
            })
        })
        .collect();
    let mut output = String::new();
    let mut error = String::new();
    let res = cmd.execute(&found, &mut output, &mut error);
    (res, output, error)
}

#[test]
fn unknown_cmd() {
    let type_cmd = TypeCmd::new(build_args(&["unknown_command"]));
    let (res, output, error) = run_type(&type_cmd, &[]);
    assert_eq!(res, ExecutionResult::Continue);
    assert_eq!(output, "unknown_command: not found\n");
    assert!(error.is_empty());
}

#[test]
fn built_in_cmd() {
    let type_cmd = TypeCmd::new(build_args(&["echo"]));
    let (res, output, error) = run_type(&type_cmd, &[]);
    assert_eq!(res, ExecutionResult::Continue);
    assert_eq!(output, "echo is a shell builtin\n");
    assert!(error.is_empty());
}

#[test]
fn type_cmd_external_cmd() {
    let name = "my_command";
    let file = "/tmp/search_dir/my_command";
    let type_cmd = TypeCmd::new(build_args(&[name]));
    let (res, output, error) = run_type(&type_cmd, &[(name, file)]);
    assert_eq!(res, ExecutionResult::Continue);
    assert_eq!(output, format!("{name} is {}\n", file));
    assert!(error.is_empty());
}

#[test]
fn multiple_cmds() {
    let type_cmd = TypeCmd::new(build_args(&["echo", "exit", "unknown_command", "type"]));
    let (res, output, error) = run_type(&type_cmd, &[]);
    assert_eq!(res, ExecutionResult::Continue);
    assert_eq!(
        output,
        "echo is a shell builtin\nexit is a shell builtin\nunknown_command: not found\ntype is a shell builtin\n"
    );
    assert!(error.is_empty());
}

#[test]
fn builtins_are_not_looked_up() {
    let type_cmd = TypeCmd::new(build_args(&["echo", "ls", "exit", "type", "cat"]));
    assert_eq!(
        type_cmd.lookup_names(),
        vec![None, Some("ls".to_string()), None, None, Some("cat".to_string())]
    );
    let (_, output, _) = run_type(&type_cmd, &[("echo", "/bin/echo"), ("ls", "/bin/ls")]);
    assert_eq!(
        output,
        "echo is a shell builtin\nls is /bin/ls\nexit is a shell builtin\ntype is a shell builtin\ncat: not found\n"
    );
}

#[test]
fn type_reads_each_name_as_a_command_line() {
    let type_cmd = TypeCmd::new(build_args(&["exit 5", "exit x", " echo ", ""]));
    assert_eq!(type_cmd.lookup_names(), vec![None, None, None, Some(String::new())]);
    let (_, output, _) = run_type(&type_cmd, &[]);
    assert_eq!(
        output,
        "exit 5 is a shell builtin\nexit x: not found\n echo  is a shell builtin\n: not found\n"
    );
}

#[test]
fn type_without_names_writes_nothing() {
    let type_cmd = TypeCmd::new(Vec::new());
    let (res, output, error) = run_type(&type_cmd, &[]);
    assert_eq!(res, ExecutionResult::Continue);
    assert!(output.is_empty());
    assert!(error.is_empty());
}
