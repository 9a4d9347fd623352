//! A program found on the search path, run with its arguments.
use vstd::prelude::*;
use vstd::string::*;

use crate::commands::ExternalCmdView;
use crate::execution::ExecutionResult;
use crate::text;

verus! {

/// A program to run: the name it was called by, the file found for it, and
/// its arguments.
#[derive(Debug, PartialEq)]
pub struct ExternalCmd {
    cmd: String,
    path: String,
    args: Vec<String>,
}

impl View for ExternalCmd {
    type V = ExternalCmdView;

    closed spec fn view(&self) -> ExternalCmdView {
        ExternalCmdView { cmd: self.cmd@, path: self.path@, args: text::views(self.args@) }
    }
}

/// What the shell reports when the program could not be started.
pub open spec fn spec_spawn_error_line(cmd: Seq<char>, reason: Seq<char>) -> Seq<char> {
    "Failed to execute "@ + cmd + " command: "@ + reason + "\n"@
}

impl ExternalCmd {
    pub fn new(cmd: String, path: String, args: Vec<String>) -> (res: Self)
        ensures
            res@ == (ExternalCmdView { cmd: cmd@, path: path@, args: text::views(args@) }),
    {
        Self { cmd, path, args }
    }

    /// The file found for the program.
    pub fn path(&self) -> (res: &String)
        ensures
            res@ == self@.path,
    {
        &self.path
    }

    /// The name the program was called by.
    pub fn cmd(&self) -> (res: &String)
        ensures
            res@ == self@.cmd,
    {
        &self.cmd
    }

    /// The arguments handed to the program.
    pub fn args(&self) -> (res: &Vec<String>)
        ensures
            text::views(res@) == self@.args,
    {
        &self.args
    }

    /// When the program could not be started: writes why to `error`; the
    /// shell goes on.
    pub fn report_spawn_error(&self, reason: &str, output: &mut String, error: &mut String) -> (res:
        ExecutionResult)
        ensures
            res == ExecutionResult::Continue,
            final(output)@ == old(output)@,
            final(error)@ == old(error)@ + spec_spawn_error_line(self@.cmd, reason@),
    {
        error.append("Failed to execute ");
        error.append(self.cmd.as_str());
        error.append(" command: ");
        error.append(reason);
        error.append("\n");
        ExecutionResult::Continue
    }
}

} // verus!
