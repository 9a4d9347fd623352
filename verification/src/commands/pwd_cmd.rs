//! The `pwd` builtin.
use vstd::prelude::*;
use vstd::string::*;

use crate::commands::{InvalidArgsError, InvalidArgsErrorView};
use crate::execution::ExecutionResult;

verus! {

/// The `pwd` builtin; it takes no arguments.
#[derive(Debug, PartialEq, Eq, Structural)]
pub struct PwdCmd {}

/// What `pwd` writes, given the current directory or why it could not be read:
/// the directory and a newline on `output`, or the reason on `error`.
pub open spec fn spec_pwd_lines(cwd: Result<Seq<char>, Seq<char>>) -> (Seq<char>, Seq<char>) {
    match cwd {
        Ok(dir) => (dir + "\n"@, seq![]),
        Err(reason) => (seq![], "Failed to get cwd: "@ + reason + "\n"@),
    }
}

pub open spec fn pwd_result_view(r: Result<PwdCmd, InvalidArgsError>) -> Result<
    (),
    InvalidArgsErrorView,
> {
    match r {
        Ok(_) => Ok(()),
        Err(e) => Err(e@),
    }
}

impl PwdCmd {
    pub fn new() -> (res: Self)
        ensures
            res == (PwdCmd {}),
    {
        Self {}
    }

    /// Reads the arguments of `pwd`: there must be none.
    pub fn try_from_slice(value: &[String]) -> (res: Result<Self, InvalidArgsError>)
        ensures
            pwd_result_view(res) == if value@.len() == 0 {
                Ok::<(), InvalidArgsErrorView>(())
            } else {
                Err(InvalidArgsErrorView::TooManyArgs)
            },
    {
        if value.len() == 0 {
            Ok(Self::new())
        } else {
            Err(InvalidArgsError::TooManyArgs)
        }
    }

    /// Reads the arguments of `pwd`: there must be none.
    pub fn try_from(value: Vec<String>) -> (res: Result<Self, InvalidArgsError>)
        ensures
            pwd_result_view(res) == if value@.len() == 0 {
                Ok::<(), InvalidArgsErrorView>(())
            } else {
                Err(InvalidArgsErrorView::TooManyArgs)
            },
    {
        Self::try_from_slice(value.as_slice())
    }

    /// Writes the current directory (`Ok`) or why it could not be read
    /// (`Err`); the shell goes on.
    pub fn execute(&self, cwd: Result<String, String>, output: &mut String, error: &mut String) -> (res:
        ExecutionResult)
        ensures
            res == ExecutionResult::Continue,
            final(output)@ == old(output)@ + spec_pwd_lines(
                match cwd {
                    Ok(d) => Ok(d@),
                    Err(r) => Err(r@),
                },
            ).0,
            final(error)@ == old(error)@ + spec_pwd_lines(
                match cwd {
                    Ok(d) => Ok(d@),
                    Err(r) => Err(r@),
                },
            ).1,
    {
        match cwd {
            Ok(dir) => {
                output.append(dir.as_str());
                output.append("\n");
                assert(error@ =~= old(error)@ + Seq::<char>::empty());
            },
            Err(reason) => {
                error.append("Failed to get cwd: ");
                error.append(reason.as_str());
                error.append("\n");
                assert(output@ =~= old(output)@ + Seq::<char>::empty());
            },
        }
        ExecutionResult::Continue
    }
}

} // verus!
