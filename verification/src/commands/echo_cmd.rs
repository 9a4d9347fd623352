//! The `echo` builtin.
use vstd::prelude::*;
use vstd::string::*;

use crate::execution::ExecutionResult;
use crate::text;

verus! {

/// The `echo` builtin with the arguments it prints.
#[derive(Debug, PartialEq)]
pub struct EchoCmd {
    args: Vec<String>,
}

impl View for EchoCmd {
    type V = Seq<Seq<char>>;

    closed spec fn view(&self) -> Seq<Seq<char>> {
        text::views(self.args@)
    }
}

/// The line that `echo` prints: its arguments joined by single spaces.
pub open spec fn spec_echo_line(args: Seq<Seq<char>>) -> Seq<char> {
    text::join(args, " "@) + "\n"@
}

impl EchoCmd {
    pub fn new(args: Vec<String>) -> (res: Self)
        ensures
            res@ == text::views(args@),
    {
        Self { args }
    }

    /// Writes the arguments, joined by single spaces, and a newline to
    /// `output`; the shell goes on.
    pub fn execute(&self, output: &mut String, error: &mut String) -> (res: ExecutionResult)
        ensures
            res == ExecutionResult::Continue,
            final(output)@ == old(output)@ + spec_echo_line(self@),
            final(error)@ == old(error)@,
    {
        let line = text::join_strings(&self.args, " ");
        output.append(line.as_str());
        output.append("\n");
        ExecutionResult::Continue
    }
}

/// What `echo` prints, read back as a line, gives its arguments again when
/// they are tokens.
pub proof fn lemma_echo_reads_back(args: Seq<Seq<char>>)
    requires
        text::all_tokens(args),
    ensures
        text::words(spec_echo_line(args)) == args,
{
    reveal_strlit(" ");
    reveal_strlit("\n");
    assert(" "@ =~= seq![' ']);
    assert("\n"@ =~= seq!['\n']);
    let joined = text::join(args, seq![' ']);
    assert(spec_echo_line(args) =~= joined + seq!['\n'] + Seq::<char>::empty());
    assert(text::is_space('\n'));
    text::lemma_words_concat(joined, '\n', Seq::<char>::empty());
    assert(text::words(Seq::<char>::empty()) =~= Seq::<Seq<char>>::empty());
    text::lemma_join_words_roundtrip(args);
    assert(args + Seq::<Seq<char>>::empty() =~= args);
}

/// No character of `join(parts, sep)` is `c` when no part and no separator
/// holds `c`.
proof fn lemma_join_avoids(parts: Seq<Seq<char>>, sep: Seq<char>, c: char)
    requires
        forall|k: int, j: int| 0 <= k < parts.len() && 0 <= j < parts[k].len() ==> parts[k][j] != c,
        forall|j: int| 0 <= j < sep.len() ==> sep[j] != c,
    ensures
        forall|i: int| 0 <= i < text::join(parts, sep).len() ==> text::join(parts, sep)[i] != c,
    decreases parts.len(),
{
    if parts.len() > 1 {
        let p0 = parts.drop_last();
        assert forall|k: int, j: int| 0 <= k < p0.len() && 0 <= j < p0[k].len() implies p0[k][j]
            != c by {
            assert(p0[k] == parts[k]);
        }
        lemma_join_avoids(p0, sep, c);
        let a = text::join(p0, sep);
        let last = parts[parts.len() - 1];
        let whole = a + sep + last;
        assert forall|i: int| 0 <= i < whole.len() implies whole[i] != c by {
            if i < a.len() {
            } else if i < a.len() + sep.len() {
                assert(whole[i] == sep[i - a.len()]);
            } else {
                assert(whole[i] == last[i - a.len() - sep.len()]);
            }
        }
    } else if parts.len() == 1 {
        assert forall|i: int| 0 <= i < parts[0].len() implies parts[0][i] != c by {}
    }
}

/// `echo` with no arguments prints just a newline.
pub proof fn lemma_echo_no_args()
    ensures
        spec_echo_line(Seq::<Seq<char>>::empty()) == seq!['\n'],
{
    reveal_strlit("\n");
    assert(spec_echo_line(Seq::<Seq<char>>::empty()) =~= seq!['\n']);
}

/// `echo` with one argument prints it and a newline.
pub proof fn lemma_echo_one_arg(w: Seq<char>)
    ensures
        spec_echo_line(seq![w]) == w + seq!['\n'],
{
    reveal_strlit("\n");
    assert("\n"@ =~= seq!['\n']);
}

/// One more argument adds a space and that argument before the final
/// newline, and nothing else.
pub proof fn lemma_echo_more_args(args: Seq<Seq<char>>, w: Seq<char>)
    requires
        args.len() > 0,
    ensures
        spec_echo_line(args.push(w)) == spec_echo_line(args).drop_last() + seq![' '] + w + seq![
            '\n',
        ],
{
    reveal_strlit(" ");
    reveal_strlit("\n");
    assert(" "@ =~= seq![' ']);
    assert("\n"@ =~= seq!['\n']);
    assert(args.push(w).drop_last() =~= args);
    let j = text::join(args, seq![' ']);
    assert((j + seq!['\n']).drop_last() =~= j);
    assert(spec_echo_line(args.push(w)) =~= j + seq![' '] + w + seq!['\n']);
}

/// What `echo` prints ends in a newline, and holds no other newline when its
/// arguments hold none.
pub proof fn lemma_echo_one_newline(args: Seq<Seq<char>>)
    requires
        forall|k: int, j: int| 0 <= k < args.len() && 0 <= j < args[k].len() ==> args[k][j] != '\n',
    ensures
        spec_echo_line(args).last() == '\n',
        forall|i: int| 0 <= i < spec_echo_line(args).len() - 1 ==> spec_echo_line(args)[i] != '\n',
{
    reveal_strlit(" ");
    reveal_strlit("\n");
    assert(" "@ =~= seq![' ']);
    assert("\n"@ =~= seq!['\n']);
    let sp = seq![' '];
    lemma_join_avoids(args, sp, '\n');
    let j = text::join(args, sp);
    let line = spec_echo_line(args);
    assert(line =~= j + seq!['\n']);
    assert forall|i: int| 0 <= i < line.len() - 1 implies line[i] != '\n' by {
        assert(line[i] == j[i]);
    }
}

} // verus!
