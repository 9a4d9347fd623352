//! Looking a program name up in the directories of the search path.
//!
//! Whether a file is an executable is a question for the file system, so the
//! search is a conversation: `find_executable` is handed the answers given so
//! far and says which file to ask about next, or what the search found.
use vstd::prelude::*;
use vstd::string::*;

use crate::text;

verus! {

/// The next step of a search.
#[derive(Debug, PartialEq)]
pub enum Search {
    /// Ask whether this file is an executable, then search again with the
    /// answer appended.
    Probe(String),
    /// The search is over, with the executable it found, if any.
    Done(Option<String>),
}

pub enum SearchView {
    Probe(Seq<char>),
    Done(Option<Seq<char>>),
}

impl View for Search {
    type V = SearchView;

    open spec fn view(&self) -> SearchView {
        match self {
            Search::Probe(p) => SearchView::Probe(p@),
            Search::Done(Some(p)) => SearchView::Done(Some(p@)),
            Search::Done(None) => SearchView::Done(None),
        }
    }
}

/// `dir` joined with `name` as `Path::join` does on Unix: an absolute `name`
/// replaces `dir`; otherwise a `/` is put between them unless `dir` is empty
/// or already ends in one.
pub open spec fn spec_join_path(dir: Seq<char>, name: Seq<char>) -> Seq<char> {
    if name.len() > 0 && name[0] == '/' {
        name
    } else if dir.len() == 0 || dir.last() == '/' {
        dir + name
    } else {
        dir + seq!['/'] + name
    }
}

/// The index of the first `true` among the first `k` answers.
pub open spec fn first_hit(answers: Seq<bool>, k: int) -> Option<int>
    decreases k,
{
    if k <= 0 {
        None
    } else {
        match first_hit(answers, k - 1) {
            Some(i) => Some(i),
            None => if answers[k - 1] {
                Some(k - 1)
            } else {
                None
            },
        }
    }
}

/// The next step of the search for `name` in `dirs`, after `answers[i]` has
/// told whether the `i`-th directory's file for `name` is an executable: an
/// empty name finds nothing; the first file answered `true` is found; once
/// every directory has been answered `false` nothing is found; otherwise the
/// file in the next directory is asked about.
pub open spec fn spec_search(name: Seq<char>, dirs: Seq<Seq<char>>, answers: Seq<bool>) -> SearchView {
    let k = if answers.len() < dirs.len() {
        answers.len() as int
    } else {
        dirs.len() as int
    };
    if name.len() == 0 {
        SearchView::Done(None)
    } else {
        match first_hit(answers, k) {
            Some(i) => SearchView::Done(Some(spec_join_path(dirs[i], name))),
            None => if answers.len() >= dirs.len() {
                SearchView::Done(None)
            } else {
                SearchView::Probe(spec_join_path(dirs[answers.len() as int], name))
            },
        }
    }
}

/// Joins a directory and a file name as `Path::join` does on Unix.
pub fn join_path(dir: &String, name: &str) -> (res: String)
    ensures
        res@ == spec_join_path(dir@, name@),
{
    let name_len = name.unicode_len();
    if name_len > 0 && name.get_char(0) == '/' {
        return name.to_owned();
    }
    let dir_len = dir.as_str().unicode_len();
    let mut res = dir.clone();
    if dir_len > 0 && dir.as_str().get_char(dir_len - 1) != '/' {
        res.append("/");
        proof {
            reveal_strlit("/");
        }
    }
    res.append(name);
    res
}

/// One step of the search for the program `name` in the directories
/// `paths`, given the answers so far (see `spec_search`).
pub fn find_executable(name: &str, paths: &Vec<String>, answers: &Vec<bool>) -> (res: Search)
    ensures
        res@ == spec_search(name@, text::views(paths@), answers@),
{
    let ghost dirs = text::views(paths@);
    if name.unicode_len() == 0 {
        return Search::Done(None);
    }
    let k = if answers.len() < paths.len() {
        answers.len()
    } else {
        paths.len()
    };
    let mut i: usize = 0;
    while i < k
        invariant
            0 <= i <= k,
            k <= answers@.len(),
            k <= paths@.len(),
            dirs == text::views(paths@),
            name@.len() > 0,
            k == (if answers@.len() < paths@.len() {
                answers@.len()
            } else {
                paths@.len()
            }),
            first_hit(answers@, i as int) is None,
        decreases k - i,
    {
        if answers[i] {
            assert(first_hit(answers@, i + 1) == Some(i as int));
            proof {
                lemma_first_hit_stable(answers@, i + 1, k as int);
            }
            assert(dirs[i as int] == paths@[i as int]@);
            return Search::Done(Some(join_path(&paths[i], name)));
        }
        i = i + 1;
    }
    if answers.len() >= paths.len() {
        Search::Done(None)
    } else {
        assert(dirs[answers@.len() as int] == paths@[answers@.len() as int]@);
        Search::Probe(join_path(&paths[answers.len()], name))
    }
}

/// Once found, the first hit stays the first hit as more answers are read.
proof fn lemma_first_hit_stable(answers: Seq<bool>, j: int, k: int)
    requires
        0 <= j <= k,
        first_hit(answers, j) is Some,
    ensures
        first_hit(answers, k) == first_hit(answers, j),
    decreases k - j,
{
    if j < k {
        lemma_first_hit_stable(answers, j, k - 1);
    }
}

/// The first hit among `k` answers is the least index below `k` answered `true`.
proof fn lemma_first_hit_least(answers: Seq<bool>, k: int)
    requires
        0 <= k <= answers.len(),
    ensures
        first_hit(answers, k) matches Some(i) ==> 0 <= i < k && answers[i] && forall|j: int|
            0 <= j < i ==> !answers[j],
        first_hit(answers, k) is None ==> forall|j: int| 0 <= j < k ==> !answers[j],
    decreases k,
{
    if k > 0 {
        lemma_first_hit_least(answers, k - 1);
    }
}

/// The first hit depends only on the answers it reads.
proof fn lemma_first_hit_prefix(a: Seq<bool>, b: Seq<bool>, k: int)
    requires
        0 <= k <= a.len(),
        k <= b.len(),
        forall|j: int| 0 <= j < k ==> a[j] == b[j],
    ensures
        first_hit(a, k) == first_hit(b, k),
    decreases k,
{
    if k > 0 {
        lemma_first_hit_prefix(a, b, k - 1);
    }
}

/// What a file-system oracle `exec` answers about the files for `name` in
/// the first `k` directories.
pub open spec fn oracle_answers(
    name: Seq<char>,
    dirs: Seq<Seq<char>>,
    exec: spec_fn(Seq<char>) -> bool,
    k: int,
) -> Seq<bool> {
    Seq::new(k as nat, |i: int| exec(spec_join_path(dirs[i], name)))
}

/// The first directory whose file for `name` the oracle calls an executable.
pub open spec fn first_executable(
    name: Seq<char>,
    dirs: Seq<Seq<char>>,
    exec: spec_fn(Seq<char>) -> bool,
) -> Option<int> {
    first_hit(oracle_answers(name, dirs, exec, dirs.len() as int), dirs.len() as int)
}

/// A search whose questions are answered by an oracle asks about the
/// directories in order, stops at the first executable and returns it,
/// and asks about nothing after it; if no directory holds one, it asks
/// about every directory and finds nothing.
pub proof fn lemma_search_finds_first(
    name: Seq<char>,
    dirs: Seq<Seq<char>>,
    exec: spec_fn(Seq<char>) -> bool,
    k: int,
)
    requires
        name.len() > 0,
        0 <= k <= dirs.len(),
    ensures
        ({
            let step = spec_search(name, dirs, oracle_answers(name, dirs, exec, k));
            match first_executable(name, dirs, exec) {
                Some(i) => (k <= i ==> step == SearchView::Probe(spec_join_path(dirs[k], name)))
                    && (k > i ==> step == SearchView::Done(Some(spec_join_path(dirs[i], name)))),
                None => (k < dirs.len() ==> step == SearchView::Probe(
                    spec_join_path(dirs[k], name),
                )) && (k == dirs.len() ==> step == SearchView::Done(None)),
            }
        }),
{
    let n = dirs.len() as int;
    let full = oracle_answers(name, dirs, exec, n);
    let part = oracle_answers(name, dirs, exec, k);
    lemma_first_hit_least(full, n);
    lemma_first_hit_least(part, k);
    lemma_first_hit_prefix(part, full, k);
    match first_executable(name, dirs, exec) {
        Some(i) => {
            if k > i {
                assert(part[i] == full[i]);
                lemma_first_hit_least(full, k);
                if first_hit(part, k) != Some(i) {
                    match first_hit(part, k) {
                        Some(j) => {
                            assert(full[j]);
                            if j < i {
                                assert(!full[j]);
                            } else {
                                assert(!part[i]);
                            }
                        },
                        None => {
                            assert(!part[i]);
                        },
                    }
                }
            } else {
                if first_hit(part, k) is Some {
                    let j = first_hit(part, k)->0;
                    assert(part[j] == full[j]);
                    assert(!full[j]);
                }
            }
        },
        None => {
            if first_hit(part, k) is Some {
                let j = first_hit(part, k)->0;
                assert(part[j] == full[j]);
            }
        },
    }
}

} // verus!
