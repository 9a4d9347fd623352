//! Reading a command line into a command name and its arguments.
use vstd::prelude::*;

use crate::text;

verus! {

/// A command line split into the command name and its arguments.
#[derive(Debug, PartialEq)]
pub struct ParsedInput {
    pub command: String,
    pub args: Vec<String>,
}

/// The character sequences that a `ParsedInput` holds.
pub struct ParsedInputView {
    pub command: Seq<char>,
    pub args: Seq<Seq<char>>,
}

impl View for ParsedInput {
    type V = ParsedInputView;

    open spec fn view(&self) -> ParsedInputView {
        ParsedInputView { command: self.command@, args: text::views(self.args@) }
    }
}

/// What a command line reads as: its first token is the command, the other
/// tokens are the arguments; a line without tokens has an empty command.
pub open spec fn spec_parse(line: Seq<char>) -> ParsedInputView {
    let ws = text::words(line);
    if ws.len() == 0 {
        ParsedInputView { command: seq![], args: seq![] }
    } else {
        ParsedInputView { command: ws[0], args: ws.drop_first() }
    }
}

impl ParsedInput {
    pub fn new(command: String, args: Vec<String>) -> (res: Self)
        ensures
            res.command == command,
            res.args == args,
    {
        Self { command, args }
    }

    /// Reads a command line: surrounding whitespace is dropped and the rest is
    /// split at runs of whitespace.
    pub fn from(value: &str) -> (res: Self)
        ensures
            res@ == spec_parse(value@),
    {
        let mut tokens = text::split_whitespace(value);
        if tokens.len() == 0 {
            let res = Self { command: String::new(), args: tokens };
            assert(res@.args =~= Seq::<Seq<char>>::empty());
            res
        } else {
            let ghost all = tokens@;
            let command = tokens.remove(0);
            assert(text::views(tokens@) =~= text::views(all).drop_first());
            Self { command, args: tokens }
        }
    }
}

/// A command line written as the command, a space, and the arguments joined
/// by single spaces reads back as that command and those arguments.
pub proof fn lemma_parse_roundtrip(command: Seq<char>, args: Seq<Seq<char>>)
    requires
        text::is_token(command),
        text::all_tokens(args),
    ensures
        spec_parse(command + seq![' '] + text::join(args, seq![' '])) == (ParsedInputView {
            command,
            args,
        }),
{
    text::lemma_words_concat(command, ' ', text::join(args, seq![' ']));
    text::lemma_words_token(command);
    text::lemma_join_words_roundtrip(args);
    let ws = text::words(command + seq![' '] + text::join(args, seq![' ']));
    assert(ws =~= seq![command] + args);
    assert(ws.drop_first() =~= args);
}

/// Whitespace before and after a command line does not change how it reads.
pub proof fn lemma_parse_trim(before: Seq<char>, line: Seq<char>, after: Seq<char>)
    requires
        text::all_space(before),
        text::all_space(after),
    ensures
        spec_parse(before + line + after) == spec_parse(line),
{
    text::lemma_words_trim(before, line, after);
}

} // verus!
