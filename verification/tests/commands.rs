use codecrafters_shell::commands::echo_cmd::EchoCmd;
use codecrafters_shell::commands::exit_cmd::ExitCmd;
use codecrafters_shell::commands::external_cmd::ExternalCmd;
use codecrafters_shell::commands::type_cmd::TypeCmd;
use codecrafters_shell::commands::{Command, CommandParseError, InvalidArgsError};
use codecrafters_shell::parser::ParsedInput;

fn build_args(args: &[&str]) -> Vec<String> {
    args.iter().map(|s| s.to_string()).collect()
}

/// Decides what a line names when the search path holds nothing for it.
fn classify(line: &str) -> Result<Command, CommandParseError> {
    Command::try_from(ParsedInput::from(line), None)
}

#[test]
fn exit_cmd_from_parsed_input() {
    let expected = Command::Exit(ExitCmd::new(1));
    assert_eq!(classify("exit 1").unwrap(), expected);
}

#[test]
fn exit_cmd_invalid_args_from_parsed_input() {
    let expected_err = CommandParseError::InvalidArgs(InvalidArgsError::InvalidFormat {
        value: "foo".into(),
    });
    assert_eq!(classify("exit foo").unwrap_err(), expected_err);
}

#[test]
fn echo_cmd_from_parsed_input() {
    let expected = Command::Echo(EchoCmd::new(build_args(&["hello", "world"])));
    assert_eq!(classify("echo hello world").unwrap(), expected);
}

#[test]
fn type_cmd_from_parsed_input() {
    let expected = Command::Type(TypeCmd::new(build_args(&["echo", "ls"])));
    assert_eq!(classify("type echo ls").unwrap(), expected);
}

#[test]
fn commands_external_cmd() {
    let name = "my_command";
    let file = "/tmp/search_dir/my_command".to_string();
    let parsed_input = ParsedInput::from("my_command foo bar");
    assert_eq!(Command::lookup_name(&parsed_input), Some(name.to_string()));
    let expected_command = Command::External(ExternalCmd::new(
        name.into(),
        file.clone(),
        build_args(&["foo", "bar"]),
    ));
    let cmd = Command::try_from(parsed_input, Some(file)).unwrap();
    assert_eq!(cmd, expected_command);
}

#[test]
fn unknown_command() {
    let cmd = "unknown_command";
    assert_eq!(
        classify(cmd).unwrap_err(),
        CommandParseError::UnknownCommand { cmd: cmd.to_owned() }
    )
}

#[test]
fn builtins_take_precedence_over_search_path() {
    let found = Some("/usr/bin/echo".to_string());
    let cmd = Command::try_from(ParsedInput::from("echo hi"), found).unwrap();
    assert_eq!(cmd, Command::Echo(EchoCmd::new(build_args(&["hi"]))));
    assert_eq!(Command::lookup_name(&ParsedInput::from("echo hi")), None);
    assert_eq!(Command::lookup_name(&ParsedInput::from("type")), None);
    assert_eq!(Command::lookup_name(&ParsedInput::from("exit 3")), None);
}

#[test]
fn empty_line_is_an_unknown_command() {
    assert_eq!(Command::lookup_name(&ParsedInput::from("   ")), Some(String::new()));
    assert_eq!(
        classify("   ").unwrap_err(),
        CommandParseError::UnknownCommand { cmd: String::new() }
    );
}

#[test]
fn exit_with_too_many_args_is_refused() {
    assert_eq!(
        classify("exit 1 2").unwrap_err(),
        CommandParseError::InvalidArgs(InvalidArgsError::TooManyArgs)
    );
}

#[test]
fn exit_without_args_is_status_zero() {
    assert_eq!(classify("exit").unwrap(), Command::Exit(ExitCmd::new(0)));
}

#[test]
fn is_builtin_names() {
    assert!(Command::is_builtin(&"exit".to_string()));
    assert!(Command::is_builtin(&"echo".to_string()));
    assert!(Command::is_builtin(&"type".to_string()));
    assert!(!Command::is_builtin(&"cd".to_string()));
    assert!(!Command::is_builtin(&"exits".to_string()));
}

#[test]
fn error_messages() {
    assert_eq!(
        CommandParseError::UnknownCommand { cmd: "foo".into() }.message(),
        "foo: command not found"
    );
    assert_eq!(
        CommandParseError::InvalidArgs(InvalidArgsError::TooManyArgs).message(),
        "too many arguments"
    );
    assert_eq!(InvalidArgsError::TooFewArgs.message(), "too few arguments");
    assert_eq!(
        InvalidArgsError::InvalidFormat { value: "x1".into() }.message(),
        "x1: invalid format"
    );
}
