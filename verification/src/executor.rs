//! A first, self-contained way of running a parsed line that knows only
//! `exit` and `echo`.
use vstd::prelude::*;
use vstd::string::*;

use crate::parser::{self, ParsedInput};
use crate::text;

verus! {

/// After a line has run, the shell either reads the next line or stops.
#[derive(Debug, Clone, Copy, PartialEq, Eq, Structural)]
pub enum ExecutionResult {
    Continue,
    Exit,
}

/// What running `input` decides, and what it prints.
pub open spec fn spec_execute(input: parser::ParsedInputView) -> (ExecutionResult, Seq<char>) {
    if input.command == "exit"@ {
        (ExecutionResult::Exit, seq![])
    } else if input.command == "echo"@ {
        (ExecutionResult::Continue, text::join(input.args, " "@) + "\n"@)
    } else if input.command.len() == 0 {
        (ExecutionResult::Continue, seq![])
    } else {
        (ExecutionResult::Continue, input.command + ": command not found\n"@)
    }
}

/// Runs a parsed line: `exit` stops the shell, `echo` prints its arguments,
/// an empty line does nothing, and any other command is reported as not
/// found. What would be printed is appended to `output`.
pub fn execute(parsed_input: ParsedInput, output: &mut String) -> (res: ExecutionResult)
    ensures
        res == spec_execute(parsed_input@).0,
        final(output)@ == old(output)@ + spec_execute(parsed_input@).1,
{
    if text::str_equal(&parsed_input.command, "exit") {
        assert(output@ =~= old(output)@ + Seq::<char>::empty());
        ExecutionResult::Exit
    } else if text::str_equal(&parsed_input.command, "echo") {
        let line = text::join_strings(&parsed_input.args, " ");
        output.append(line.as_str());
        output.append("\n");
        ExecutionResult::Continue
    } else if parsed_input.command.as_str().unicode_len() == 0 {
        assert(output@ =~= old(output)@ + Seq::<char>::empty());
        ExecutionResult::Continue
    } else {
        output.append(parsed_input.command.as_str());
        output.append(": command not found\n");
        ExecutionResult::Continue
    }
}

/// `exit` stops the shell and prints nothing, whatever its arguments.
pub proof fn lemma_executor_exit_stops(input: parser::ParsedInputView)
    requires
        input.command == "exit"@,
    ensures
        spec_execute(input).0 == ExecutionResult::Exit,
        spec_execute(input).1 == Seq::<char>::empty(),
{
}

/// Every line whose command is not `exit` lets the shell go on.
pub proof fn lemma_executor_only_exit_stops(input: parser::ParsedInputView)
    requires
        input.command != "exit"@,
    ensures
        spec_execute(input).0 == ExecutionResult::Continue,
{
}

/// `echo` run here prints exactly what the `echo` builtin prints.
pub proof fn lemma_executor_echo_is_echo(input: parser::ParsedInputView)
    requires
        input.command == "echo"@,
    ensures
        spec_execute(input).1 == crate::commands::echo_cmd::spec_echo_line(input.args),
{
    reveal_strlit("exit");
    reveal_strlit("echo");
    assert("echo"@[1] != "exit"@[1]);
}

/// Any other non-empty command is reported, by name, as not found.
pub proof fn lemma_executor_unknown(input: parser::ParsedInputView)
    requires
        input.command != "exit"@,
        input.command != "echo"@,
        input.command.len() > 0,
    ensures
        spec_execute(input).1 == input.command + ": command not found\n"@,
{
}

} // verus!
