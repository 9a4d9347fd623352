//! The `type` builtin: tells how each of its arguments would be run.
use vstd::prelude::*;
use vstd::string::*;

use crate::commands::{Command, CommandView, opt_view, spec_command_from, spec_lookup_name};
use crate::execution::ExecutionResult;
use crate::parser::{self, ParsedInput};
use crate::text;

verus! {

/// The `type` builtin with the names it describes.
#[derive(Debug, PartialEq)]
pub struct TypeCmd {
    commands: Vec<String>,
}

impl View for TypeCmd {
    type V = Seq<Seq<char>>;

    closed spec fn view(&self) -> Seq<Seq<char>> {
        text::views(self.commands@)
    }
}

/// The line that `type` writes for `cmd`, given the file that the search path
/// holds for it: a program is named with its file, a builtin as such, and
/// anything else is not found.
pub open spec fn spec_type_line(cmd: Seq<char>, found: Option<Seq<char>>) -> Seq<char> {
    match spec_command_from(parser::spec_parse(cmd), found) {
        Ok(CommandView::External(ext)) => cmd + " is "@ + ext.path + "\n"@,
        Ok(_) => cmd + " is a shell builtin\n"@,
        Err(_) => cmd + ": not found\n"@,
    }
}

/// The lines for the first `k` names.
pub open spec fn spec_type_report(
    cmds: Seq<Seq<char>>,
    found: Seq<Option<Seq<char>>>,
    k: int,
) -> Seq<char>
    decreases k,
{
    if k <= 0 {
        seq![]
    } else {
        spec_type_report(cmds, found, k - 1) + spec_type_line(cmds[k - 1], found[k - 1])
    }
}

pub open spec fn opt_views(v: Seq<Option<String>>) -> Seq<Option<Seq<char>>> {
    v.map_values(|o: Option<String>| opt_view(o))
}

fn clone_opt(o: &Option<String>) -> (res: Option<String>)
    ensures
        opt_view(res) == opt_view(*o),
{
    match o {
        Some(s) => Some(s.clone()),
        None => None,
    }
}

impl TypeCmd {
    pub fn new(commands: Vec<String>) -> (res: Self)
        ensures
            res@ == text::views(commands@),
    {
        Self { commands }
    }

    /// For each name, what to look up on the search path before `execute`
    /// can describe it (`None` for a builtin).
    pub fn lookup_names(&self) -> (res: Vec<Option<String>>)
        ensures
            res@.len() == self@.len(),
            forall|i: int|
                0 <= i < self@.len() ==> opt_view(#[trigger] res@[i]) == spec_lookup_name(
                    parser::spec_parse(self@[i]),
                ),
    {
        let mut res: Vec<Option<String>> = Vec::new();
        let n = self.commands.len();
        let mut i: usize = 0;
        while i < n
            invariant
                n == self@.len(),
                n == self.commands@.len(),
                self@ == text::views(self.commands@),
                0 <= i <= n,
                res@.len() == i,
                forall|j: int|
                    0 <= j < i ==> opt_view(#[trigger] res@[j]) == spec_lookup_name(
                        parser::spec_parse(self@[j]),
                    ),
            decreases n - i,
        {
            let parsed = ParsedInput::from(self.commands[i].as_str());
            res.push(Command::lookup_name(&parsed));
            i = i + 1;
        }
        res
    }

    /// Writes one line per name to `output`, saying how it would be run;
    /// `found[i]` is the file that the search path holds for the `i`-th
    /// name of `lookup_names` (`None` where it gave `None`).
    pub fn execute(&self, found: &Vec<Option<String>>, output: &mut String, error: &mut String) -> (res:
        ExecutionResult)
        requires
            found@.len() == self@.len(),
        ensures
            res == ExecutionResult::Continue,
            final(output)@ == old(output)@ + spec_type_report(
                self@,
                opt_views(found@),
                self@.len() as int,
            ),
            final(error)@ == old(error)@,
    {
        let n = self.commands.len();
        let ghost cmds = self@;
        let ghost fv = opt_views(found@);
        let mut i: usize = 0;
        while i < n
            invariant
                n == cmds.len(),
                n == self.commands@.len(),
                n == found@.len(),
                cmds == text::views(self.commands@),
                fv == opt_views(found@),
                0 <= i <= n,
                output@ == old(output)@ + spec_type_report(cmds, fv, i as int),
            decreases n - i,
        {
            let cmd = &self.commands[i];
            let parsed = ParsedInput::from(cmd.as_str());
            let lookup = clone_opt(&found[i]);
            assert(cmds[i as int] == cmd@);
            assert(fv[i as int] == opt_view(found@[i as int]));
            let ghost before = output@;
            match Command::try_from(parsed, lookup) {
                Ok(Command::External(ext)) => {
                    output.append(cmd.as_str());
                    output.append(" is ");
                    output.append(ext.path().as_str());
                    output.append("\n");
                },
                Ok(_) => {
                    output.append(cmd.as_str());
                    output.append(" is a shell builtin\n");
                },
                Err(_) => {
                    output.append(cmd.as_str());
                    output.append(": not found\n");
                },
            }
            assert(output@ =~= before + spec_type_line(cmds[i as int], fv[i as int]));
            i = i + 1;
        }
        ExecutionResult::Continue
    }
}

/// `type` calls each builtin name a shell builtin, whatever the search path
/// holds for it.
pub proof fn lemma_type_builtin(name: Seq<char>, found: Option<Seq<char>>)
    requires
        crate::commands::is_builtin_name(name),
    ensures
        spec_type_line(name, found) == name + " is a shell builtin\n"@,
{
    reveal_strlit("exit");
    reveal_strlit("echo");
    reveal_strlit("type");
    assert(text::is_token(name));
    text::lemma_words_token(name);
    assert(parser::spec_parse(name).command == name);
    assert(parser::spec_parse(name).args =~= Seq::<Seq<char>>::empty());
}

/// `type` names any other single-word name with the file that the search
/// path holds for it, or reports it not found.
pub proof fn lemma_type_program(name: Seq<char>, found: Option<Seq<char>>)
    requires
        text::is_token(name),
        !crate::commands::is_builtin_name(name),
    ensures
        spec_type_line(name, found) == match found {
            Some(path) => name + " is "@ + path + "\n"@,
            None => name + ": not found\n"@,
        },
{
    text::lemma_words_token(name);
    assert(parser::spec_parse(name).command == name);
}

} // verus!
