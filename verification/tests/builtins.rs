use codecrafters_shell::commands::cd_cmd::CdCmd;
use codecrafters_shell::commands::echo_cmd::EchoCmd;
use codecrafters_shell::commands::exit_cmd::{parse_i32, ExitCmd};
use codecrafters_shell::commands::external_cmd::ExternalCmd;
use codecrafters_shell::commands::pwd_cmd::PwdCmd;
use codecrafters_shell::commands::InvalidArgsError;
use codecrafters_shell::execution::ExecutionResult;

fn build_args(args: &[&str]) -> Vec<String> {
    args.iter().map(|s| s.to_string()).collect()
}

#[test]
fn cd_cmd_from_valid_args() {
    let cmd = CdCmd::try_from(build_args(&["path"])).unwrap();
    assert_eq!(cmd, CdCmd::new("path".to_string()));
}

#[test]
fn cd_cmd_fails_from_multiple_args() {
    let err = CdCmd::try_from(build_args(&["foo", "bar"])).unwrap_err();
    assert_eq!(err, InvalidArgsError::TooManyArgs);
}

#[test]
fn cd_without_args_is_the_empty_path() {
    let cmd = CdCmd::try_from(Vec::new()).unwrap();
    assert_eq!(cmd, CdCmd::new(String::new()));
}

#[test]
fn cd_into_a_directory() {
    let mut output = String::new();
    let mut error = String::new();
    let cmd = CdCmd::new("/home".to_string());
    let (res, target) = cmd.execute(true, &mut output, &mut error);
    assert_eq!(res, ExecutionResult::Continue);
    assert_eq!(target, Some("/home".to_string()));
    assert!(output.is_empty());
    assert!(error.is_empty());
}

#[test]
fn execute_with_invalid_path_prints_error_and_does_not_change_cwd() {
    let mut output = String::new();
    let mut error = String::new();
    let path = "some/probably/invalid/path";
    let cmd = CdCmd::new(path.to_string());
    let (res, target) = cmd.execute(false, &mut output, &mut error);
    assert_eq!(res, ExecutionResult::Continue);
    assert_eq!(target, None);
    assert!(output.is_empty());
    assert_eq!(error, format!("cd: {}: No such file or directory\n", path));
}

#[test]
fn execution_writes_to_output() {
    let mut output = String::new();
    let mut error = String::new();
    let echo = EchoCmd::new(build_args(&["foo", "bar"]));
    assert_eq!(echo.execute(&mut output, &mut error), ExecutionResult::Continue);
    assert_eq!(output, "foo bar\n");
    assert!(error.is_empty());
}

#[test]
fn execution_with_no_args() {
    let mut output = String::new();
    let mut error = String::new();
    let echo = EchoCmd::new(Vec::new());
    assert_eq!(echo.execute(&mut output, &mut error), ExecutionResult::Continue);
    assert_eq!(output, "\n");
    assert!(error.is_empty());
}

#[test]
fn echo_appends_to_what_was_written() {
    let mut output = "$ ".to_string();
    let mut error = String::new();
    let echo = EchoCmd::new(build_args(&["a", "", "b"]));
    echo.execute(&mut output, &mut error);
    assert_eq!(output, "$ a  b\n");
}

#[test]
fn exit_cmd_from_valid_args() {
    let cmd = ExitCmd::try_from(build_args(&["1"])).unwrap();
    assert_eq!(cmd, ExitCmd::new(1));
}

#[test]
fn exit_cmd_from_empty_args() {
    let cmd = ExitCmd::try_from(build_args(&[])).unwrap();
    assert_eq!(cmd, ExitCmd::new(0));
}

#[test]
fn exit_cmd_fails_from_multiple_args() {
    let err = ExitCmd::try_from(build_args(&["2", "3"])).unwrap_err();
    assert_eq!(err, InvalidArgsError::TooManyArgs);
}

#[test]
fn execute_retursn_exit_result() {
    let mut output = String::new();
    let mut error = String::new();
    let exit = ExitCmd::new(0);
    assert_eq!(exit.execute(&mut output, &mut error), ExecutionResult::Exit);
    assert!(output.is_empty());
    assert!(error.is_empty());
}

#[test]
fn exit_code_formats() {
    assert_eq!(ExitCmd::try_from(build_args(&["+7"])).unwrap(), ExitCmd::new(7));
    assert_eq!(ExitCmd::try_from(build_args(&["-3"])).unwrap(), ExitCmd::new(-3));
    assert_eq!(ExitCmd::try_from(build_args(&["007"])).unwrap(), ExitCmd::new(7));
    assert_eq!(
        ExitCmd::try_from(build_args(&["1.5"])).unwrap_err(),
        InvalidArgsError::InvalidFormat { value: "1.5".into() }
    );
    assert_eq!(
        ExitCmd::try_from_slice(&build_args(&["x"])).unwrap_err(),
        InvalidArgsError::InvalidFormat { value: "x".into() }
    );
}

#[test]
fn parse_i32_matches_std() {
    let cases = [
        "", "+", "-", "0", "-0", "+0", "42", "-42", "+42", "0042", "2147483647", "2147483648",
        "-2147483648", "-2147483649", "99999999999999999999", "1a", "a1", " 1", "1 ", "--1",
        "+-1", "\u{0661}", "-00000000000000000000002147483648",
    ];
    for case in cases {
        assert_eq!(parse_i32(case), case.parse::<i32>().ok(), "{case:?}");
    }
}

#[test]
fn pwd_cmd_from_empty_args() {
    let cmd = PwdCmd::try_from(build_args(&[])).unwrap();
    assert_eq!(cmd, PwdCmd::new());
}

#[test]
fn pwd_cmd_fails_from_multiple_args() {
    let err = PwdCmd::try_from(build_args(&["foo"])).unwrap_err();
    assert_eq!(err, InvalidArgsError::TooManyArgs);
    let err = PwdCmd::try_from(build_args(&["foo", "bar"])).unwrap_err();
    assert_eq!(err, InvalidArgsError::TooManyArgs);
}

#[test]
fn pwd_prints_the_directory_or_the_failure() {
    let cmd = PwdCmd::new();
    let mut output = String::new();
    let mut error = String::new();
    assert_eq!(
        cmd.execute(Ok("/home/user".to_string()), &mut output, &mut error),
        ExecutionResult::Continue
    );
    assert_eq!(output, "/home/user\n");
    assert!(error.is_empty());

    let mut output = String::new();
    let mut error = String::new();
    cmd.execute(Err("gone".to_string()), &mut output, &mut error);
    assert!(output.is_empty());
    assert_eq!(error, "Failed to get cwd: gone\n");
}

#[test]
fn external_spawn_failure_is_reported() {
    let cmd = ExternalCmd::new("prog".into(), "/bin/prog".into(), build_args(&["a"]));
    assert_eq!(cmd.path(), "/bin/prog");
    assert_eq!(cmd.cmd(), "prog");
    assert_eq!(cmd.args(), &build_args(&["a"]));
    let mut output = String::new();
    let mut error = String::new();
    assert_eq!(
        cmd.report_spawn_error("permission denied", &mut output, &mut error),
        ExecutionResult::Continue
    );
    assert!(output.is_empty());
    assert_eq!(error, "Failed to execute prog command: permission denied\n");
}

#[test]
fn echo_output_reads_back_as_its_arguments() {
    let args = build_args(&["one", "two", "three"]);
    let mut output = String::new();
    let mut error = String::new();
    EchoCmd::new(args.clone()).execute(&mut output, &mut error);
    assert_eq!(codecrafters_shell::text::split_whitespace(&output), args);
}
