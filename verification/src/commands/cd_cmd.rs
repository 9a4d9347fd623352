//! The `cd` builtin.
use vstd::prelude::*;
use vstd::string::*;

use crate::commands::{InvalidArgsError, InvalidArgsErrorView};
use crate::execution::ExecutionResult;
use crate::text;

verus! {

/// The `cd` builtin with the directory it changes to.
#[derive(Debug, PartialEq)]
pub struct CdCmd {
    path: String,
}

impl View for CdCmd {
    type V = Seq<char>;

    closed spec fn view(&self) -> Seq<char> {
        self.path@
    }
}

/// What the arguments of `cd` read as: no argument is the empty path, one
/// argument is the path, more are too many.
pub open spec fn spec_cd_from(args: Seq<Seq<char>>) -> Result<Seq<char>, InvalidArgsErrorView> {
    if args.len() == 0 {
        Ok(seq![])
    } else if args.len() == 1 {
        Ok(args[0])
    } else {
        Err(InvalidArgsErrorView::TooManyArgs)
    }
}

pub open spec fn cd_result_view(r: Result<CdCmd, InvalidArgsError>) -> Result<
    Seq<char>,
    InvalidArgsErrorView,
> {
    match r {
        Ok(cmd) => Ok(cmd@),
        Err(e) => Err(e@),
    }
}

/// What `cd` reports when its path is not a directory.
pub open spec fn spec_cd_error_line(path: Seq<char>) -> Seq<char> {
    "cd: "@ + path + ": No such file or directory\n"@
}

impl CdCmd {
    pub fn new(path: String) -> (res: Self)
        ensures
            res@ == path@,
    {
        Self { path }
    }

    /// Reads the arguments of `cd`.
    pub fn try_from_slice(value: &[String]) -> (res: Result<Self, InvalidArgsError>)
        ensures
            cd_result_view(res) == spec_cd_from(text::views(value@)),
    {
        if value.len() == 0 {
            Ok(Self::new(String::new()))
        } else if value.len() == 1 {
            Ok(Self::new(value[0].clone()))
        } else {
            Err(InvalidArgsError::TooManyArgs)
        }
    }

    /// Reads the arguments of `cd`.
    pub fn try_from(value: Vec<String>) -> (res: Result<Self, InvalidArgsError>)
        ensures
            cd_result_view(res) == spec_cd_from(text::views(value@)),
    {
        Self::try_from_slice(value.as_slice())
    }

    /// The directory to change to.
    pub fn path(&self) -> (res: &String)
        ensures
            res@ == self@,
    {
        &self.path
    }

    /// Decides what `cd` does, given whether its path names a directory:
    /// if it does, the directory to change to is returned; if not, an error
    /// line is written to `error` and nothing is to change. The shell goes on.
    pub fn execute(&self, is_dir: bool, output: &mut String, error: &mut String) -> (res: (
        ExecutionResult,
        Option<String>,
    ))
        ensures
            res.0 == ExecutionResult::Continue,
            final(output)@ == old(output)@,
            is_dir ==> res.1 is Some && res.1->0@ == self@ && final(error)@ == old(error)@,
            !is_dir ==> res.1 is None && final(error)@ == old(error)@ + spec_cd_error_line(self@),
    {
        if !is_dir {
            error.append("cd: ");
            error.append(self.path.as_str());
            error.append(": No such file or directory\n");
            (ExecutionResult::Continue, None)
        } else {
            (ExecutionResult::Continue, Some(self.path.clone()))
        }
    }
}

} // verus!
