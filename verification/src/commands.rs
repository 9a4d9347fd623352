//! The commands that a command line can name, and how a parsed line is turned
//! into one of them.
use vstd::prelude::*;
use vstd::string::*;

use crate::commands::echo_cmd::EchoCmd;
use crate::commands::exit_cmd::ExitCmd;
use crate::commands::external_cmd::ExternalCmd;
use crate::commands::type_cmd::TypeCmd;
use crate::parser::ParsedInput;
use crate::text;

pub mod cd_cmd;
pub mod echo_cmd;
pub mod exit_cmd;
pub mod external_cmd;
pub mod pwd_cmd;
pub mod type_cmd;

verus! {

/// A command that a line names: one of the builtins, or a program found on
/// the search path.
#[derive(Debug, PartialEq)]
pub enum Command {
    Exit(ExitCmd),
    Echo(EchoCmd),
    Type(TypeCmd),
    External(ExternalCmd),
}

/// Why a command line does not name a command that can run.
#[derive(Debug, PartialEq)]
pub enum CommandParseError {
    UnknownCommand { cmd: String },
    InvalidArgs(InvalidArgsError),
}

/// Why the arguments of a builtin are refused.
#[derive(Debug, PartialEq)]
pub enum InvalidArgsError {
    TooManyArgs,
    TooFewArgs,
    InvalidFormat { value: String },
}

pub enum InvalidArgsErrorView {
    TooManyArgs,
    TooFewArgs,
    InvalidFormat { value: Seq<char> },
}

pub enum CommandParseErrorView {
    UnknownCommand { cmd: Seq<char> },
    InvalidArgs(InvalidArgsErrorView),
}

/// The program that an external command runs: its name, the file found for
/// it, and its arguments.
pub struct ExternalCmdView {
    pub cmd: Seq<char>,
    pub path: Seq<char>,
    pub args: Seq<Seq<char>>,
}

pub enum CommandView {
    Exit { code: i32 },
    Echo { args: Seq<Seq<char>> },
    Type { commands: Seq<Seq<char>> },
    External(ExternalCmdView),
}

impl View for InvalidArgsError {
    type V = InvalidArgsErrorView;

    open spec fn view(&self) -> InvalidArgsErrorView {
        match self {
            InvalidArgsError::TooManyArgs => InvalidArgsErrorView::TooManyArgs,
            InvalidArgsError::TooFewArgs => InvalidArgsErrorView::TooFewArgs,
            InvalidArgsError::InvalidFormat { value } => InvalidArgsErrorView::InvalidFormat {
                value: value@,
            },
        }
    }
}

impl View for CommandParseError {
    type V = CommandParseErrorView;

    open spec fn view(&self) -> CommandParseErrorView {
        match self {
            CommandParseError::UnknownCommand { cmd } => CommandParseErrorView::UnknownCommand {
                cmd: cmd@,
            },
            CommandParseError::InvalidArgs(e) => CommandParseErrorView::InvalidArgs(e@),
        }
    }
}

/// The message that describes an argument error.
pub open spec fn spec_invalid_args_message(e: InvalidArgsErrorView) -> Seq<char> {
    match e {
        InvalidArgsErrorView::TooManyArgs => "too many arguments"@,
        InvalidArgsErrorView::TooFewArgs => "too few arguments"@,
        InvalidArgsErrorView::InvalidFormat { value } => value + ": invalid format"@,
    }
}

/// The message that describes a command line error.
pub open spec fn spec_command_error_message(e: CommandParseErrorView) -> Seq<char> {
    match e {
        CommandParseErrorView::UnknownCommand { cmd } => cmd + ": command not found"@,
        CommandParseErrorView::InvalidArgs(inner) => spec_invalid_args_message(inner),
    }
}

impl InvalidArgsError {
    /// The message that describes this error.
    pub fn message(&self) -> (res: String)
        ensures
            res@ == spec_invalid_args_message(self@),
    {
        match self {
            InvalidArgsError::TooManyArgs => "too many arguments".to_owned(),
            InvalidArgsError::TooFewArgs => "too few arguments".to_owned(),
            InvalidArgsError::InvalidFormat { value } => {
                let mut res = value.clone();
                res.append(": invalid format");
                res
            },
        }
    }
}

impl CommandParseError {
    /// The message that describes this error.
    pub fn message(&self) -> (res: String)
        ensures
            res@ == spec_command_error_message(self@),
    {
        match self {
            CommandParseError::UnknownCommand { cmd } => {
                let mut res = cmd.clone();
                res.append(": command not found");
                res
            },
            CommandParseError::InvalidArgs(e) => e.message(),
        }
    }
}

impl View for Command {
    type V = CommandView;

    open spec fn view(&self) -> CommandView {
        match self {
            Command::Exit(c) => CommandView::Exit { code: c@ },
            Command::Echo(c) => CommandView::Echo { args: c@ },
            Command::Type(c) => CommandView::Type { commands: c@ },
            Command::External(c) => CommandView::External(c@),
        }
    }
}

pub open spec fn command_result_view(r: Result<Command, CommandParseError>) -> Result<
    CommandView,
    CommandParseErrorView,
> {
    match r {
        Ok(c) => Ok(c@),
        Err(e) => Err(e@),
    }
}

pub open spec fn opt_view(o: Option<String>) -> Option<Seq<char>> {
    match o {
        Some(s) => Some(s@),
        None => None,
    }
}

/// The names of the builtin commands.
pub open spec fn is_builtin_name(name: Seq<char>) -> bool {
    name == "exit"@ || name == "echo"@ || name == "type"@
}

/// The name to look up on the search path for a command line: its command,
/// unless that names a builtin.
pub open spec fn spec_lookup_name(input: crate::parser::ParsedInputView) -> Option<Seq<char>> {
    if is_builtin_name(input.command) {
        None
    } else {
        Some(input.command)
    }
}

/// Which command a parsed line names. `found` is the file that the search
/// path holds for the line's command, if any; it matters only when the
/// command is not a builtin.
pub open spec fn spec_command_from(
    input: crate::parser::ParsedInputView,
    found: Option<Seq<char>>,
) -> Result<CommandView, CommandParseErrorView> {
    if input.command == "exit"@ {
        match exit_cmd::spec_exit_from(input.args) {
            Ok(code) => Ok(CommandView::Exit { code }),
            Err(e) => Err(CommandParseErrorView::InvalidArgs(e)),
        }
    } else if input.command == "echo"@ {
        Ok(CommandView::Echo { args: input.args })
    } else if input.command == "type"@ {
        Ok(CommandView::Type { commands: input.args })
    } else {
        match found {
            Some(path) => Ok(
                CommandView::External(
                    ExternalCmdView { cmd: input.command, path, args: input.args },
                ),
            ),
            None => Err(CommandParseErrorView::UnknownCommand { cmd: input.command }),
        }
    }
}

impl Command {
    /// Whether `name` is one of the builtins.
    pub fn is_builtin(name: &String) -> (res: bool)
        ensures
            res == is_builtin_name(name@),
    {
        text::str_equal(name, "exit") || text::str_equal(name, "echo") || text::str_equal(
            name,
            "type",
        )
    }

    /// The name to look up on the search path before `try_from` can decide
    /// what `input` names; `None` when it names a builtin.
    pub fn lookup_name(input: &ParsedInput) -> (res: Option<String>)
        ensures
            opt_view(res) == spec_lookup_name(input@),
    {
        if Self::is_builtin(&input.command) {
            None
        } else {
            Some(input.command.clone())
        }
    }

    /// Decides which command `value` names. `found` is the file that the
    /// search path holds for `value.command` (see `lookup_name`); builtins
    /// take precedence over it.
    pub fn try_from(value: ParsedInput, found: Option<String>) -> (res: Result<
        Command,
        CommandParseError,
    >)
        ensures
            command_result_view(res) == spec_command_from(value@, opt_view(found)),
    {
        if text::str_equal(&value.command, "exit") {
            match ExitCmd::try_from(value.args) {
                Ok(cmd) => Ok(Command::Exit(cmd)),
                Err(e) => Err(CommandParseError::InvalidArgs(e)),
            }
        } else if text::str_equal(&value.command, "echo") {
            Ok(Command::Echo(EchoCmd::new(value.args)))
        } else if text::str_equal(&value.command, "type") {
            Ok(Command::Type(TypeCmd::new(value.args)))
        } else {
            match found {
                Some(path) => Ok(Command::External(ExternalCmd::new(value.command, path, value.args))),
                None => Err(CommandParseError::UnknownCommand { cmd: value.command }),
            }
        }
    }
}

/// Builtins take precedence over the search path: what a line naming a
/// builtin reads as does not depend on what the search path holds.
pub proof fn lemma_builtins_ignore_search_path(
    input: crate::parser::ParsedInputView,
    found1: Option<Seq<char>>,
    found2: Option<Seq<char>>,
)
    requires
        is_builtin_name(input.command),
    ensures
        spec_command_from(input, found1) == spec_command_from(input, found2),
{
}

/// A line that names no builtin is refused exactly when the search path
/// holds no file for its command.
pub proof fn lemma_unknown_iff_not_found(
    input: crate::parser::ParsedInputView,
    found: Option<Seq<char>>,
)
    requires
        !is_builtin_name(input.command),
    ensures
        spec_command_from(input, found) is Err <==> found is None,
        found is None ==> spec_command_from(input, found) == Err::<
            CommandView,
            CommandParseErrorView,
        >(CommandParseErrorView::UnknownCommand { cmd: input.command }),
{
}

/// A line whose command is a program found on the search path runs that
/// program, under the name it was called by, with every argument of the
/// line in order.
pub proof fn lemma_external_keeps_arguments(
    input: crate::parser::ParsedInputView,
    path: Seq<char>,
)
    requires
        input.command != "exit"@,
        input.command != "echo"@,
        input.command != "type"@,
    ensures
        spec_command_from(input, Some(path)) == Ok::<CommandView, CommandParseErrorView>(
            CommandView::External(ExternalCmdView { cmd: input.command, path, args: input.args }),
        ),
{
}

/// Written out as a line, a program name and its arguments come back as an
/// external command with that name and exactly those arguments.
pub proof fn lemma_external_from_line(
    cmd: Seq<char>,
    args: Seq<Seq<char>>,
    path: Seq<char>,
)
    requires
        text::is_token(cmd),
        text::all_tokens(args),
        cmd != "exit"@,
        cmd != "echo"@,
        cmd != "type"@,
    ensures
        spec_command_from(
            crate::parser::spec_parse(cmd + seq![' '] + text::join(args, seq![' '])),
            Some(path),
        ) == Ok::<CommandView, CommandParseErrorView>(
            CommandView::External(ExternalCmdView { cmd, path, args }),
        ),
{
    crate::parser::lemma_parse_roundtrip(cmd, args);
}

/// `echo` and `type` keep every argument of the line, in order.
pub proof fn lemma_builtins_keep_arguments(
    input: crate::parser::ParsedInputView,
    found: Option<Seq<char>>,
)
    ensures
        input.command == "echo"@ ==> spec_command_from(input, found) == Ok::<
            CommandView,
            CommandParseErrorView,
        >(CommandView::Echo { args: input.args }),
        input.command == "type"@ ==> spec_command_from(input, found) == Ok::<
            CommandView,
            CommandParseErrorView,
        >(CommandView::Type { commands: input.args }),
{
    reveal_strlit("exit");
    reveal_strlit("echo");
    reveal_strlit("type");
    assert("echo"@[1] != "exit"@[1]);
    assert("type"@[0] != "exit"@[0]);
    assert("type"@[0] != "echo"@[0]);
}

/// Every command that is not `exit`, `echo` or `type` is looked up on the
/// search path under exactly its own name, whatever characters it holds;
/// those three are never looked up.
pub proof fn lemma_lookup_name(input: crate::parser::ParsedInputView)
    ensures
        (input.command != "exit"@ && input.command != "echo"@ && input.command != "type"@)
            ==> spec_lookup_name(input) == Some(input.command),
        (input.command == "exit"@ || input.command == "echo"@ || input.command == "type"@)
            ==> spec_lookup_name(input) is None,
{
}

/// The name looked up is the name of the external command that the lookup
/// result turns the line into.
pub proof fn lemma_lookup_then_run(input: crate::parser::ParsedInputView, path: Seq<char>)
    requires
        spec_lookup_name(input) is Some,
    ensures
        spec_command_from(input, Some(path)) == Ok::<CommandView, CommandParseErrorView>(
            CommandView::External(
                ExternalCmdView { cmd: spec_lookup_name(input)->0, path, args: input.args },
            ),
        ),
{
}

} // verus!
