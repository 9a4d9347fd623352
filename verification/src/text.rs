//! Whitespace tokenizing and joining of command lines.
use vstd::prelude::*;
use vstd::string::*;

verus! {

/// The characters with the Unicode `White_Space` property, the set that
/// `char::is_whitespace` and `str::split_whitespace` go by.
pub open spec fn is_space(c: char) -> bool {
    ||| c == ' '
    ||| ('\t' <= c && c <= '\r')
    ||| c == '\u{85}'
    ||| c == '\u{a0}'
    ||| c == '\u{1680}'
    ||| ('\u{2000}' <= c && c <= '\u{200a}')
    ||| c == '\u{2028}'
    ||| c == '\u{2029}'
    ||| c == '\u{202f}'
    ||| c == '\u{205f}'
    ||| c == '\u{3000}'
}

/// Every character of `s` is whitespace.
pub open spec fn all_space(s: Seq<char>) -> bool {
    forall|i: int| 0 <= i < s.len() ==> #[trigger] is_space(s[i])
}

/// A token: a non-empty run of characters none of which is whitespace.
pub open spec fn is_token(w: Seq<char>) -> bool {
    &&& w.len() > 0
    &&& forall|i: int| 0 <= i < w.len() ==> !#[trigger] is_space(w[i])
}

/// Every element of `ws` is a token.
pub open spec fn all_tokens(ws: Seq<Seq<char>>) -> bool {
    forall|i: int| 0 <= i < ws.len() ==> #[trigger] is_token(ws[i])
}

/// The maximal runs of non-whitespace characters of `s`, in order: what
/// `str::split_whitespace` yields. Defined by reading `s` one character at a
/// time from its end: a whitespace character adds nothing, a character after
/// whitespace (or at the start) begins a new token, any other character
/// extends the last token.
pub open spec fn words(s: Seq<char>) -> Seq<Seq<char>>
    decreases s.len(),
{
    if s.len() == 0 {
        seq![]
    } else {
        let prev = words(s.drop_last());
        let c = s.last();
        if is_space(c) {
            prev
        } else if s.len() == 1 || is_space(s[s.len() - 2]) {
            prev.push(seq![c])
        } else {
            prev.update(prev.len() - 1, prev.last().push(c))
        }
    }
}

/// `parts` joined with `sep` between neighbours, as `[String]::join` does.
pub open spec fn join(parts: Seq<Seq<char>>, sep: Seq<char>) -> Seq<char>
    decreases parts.len(),
{
    if parts.len() == 0 {
        seq![]
    } else if parts.len() == 1 {
        parts[0]
    } else {
        join(parts.drop_last(), sep) + sep + parts.last()
    }
}

/// The character sequences held by a sequence of strings.
pub open spec fn views(v: Seq<String>) -> Seq<Seq<char>> {
    v.map_values(|s: String| s@)
}

/// Whether `c` is whitespace, as `char::is_whitespace` answers.
pub fn is_whitespace(c: char) -> (res: bool)
    ensures
        res == is_space(c),
{
    c == ' ' || ('\t' <= c && c <= '\r') || c == '\u{85}' || c == '\u{a0}' || c == '\u{1680}'
        || ('\u{2000}' <= c && c <= '\u{200a}') || c == '\u{2028}' || c == '\u{2029}' || c
        == '\u{202f}' || c == '\u{205f}' || c == '\u{3000}'
}

/// Whether the string `a` holds exactly the characters of `b`.
pub fn str_equal(a: &String, b: &str) -> (res: bool)
    ensures
        res == (a@ == b@),
{
    let owned: String = b.to_owned();
    *a == owned
}

/// Splits `s` into its whitespace-separated tokens, as
/// `s.split_whitespace().map(String::from).collect()` does.
pub fn split_whitespace(s: &str) -> (res: Vec<String>)
    ensures
        views(res@) == words(s@),
{
    let n = s.unicode_len();
    let mut out: Vec<String> = Vec::new();
    let mut start: usize = 0;
    let mut in_word = false;
    let mut i: usize = 0;
    while i < n
        invariant
            n == s@.len(),
            0 <= start <= i <= n,
            in_word ==> start < i,
            in_word <==> (i > 0 && !is_space(s@[i - 1])),
            in_word ==> (start == 0 || is_space(s@[start - 1])),
            in_word ==> forall|k: int| start <= k < i ==> !is_space(#[trigger] s@[k]),
            in_word ==> views(out@).push(s@.subrange(start as int, i as int)) == words(
                s@.take(i as int),
            ),
            !in_word ==> views(out@) == words(s@.take(i as int)),
        decreases n - i,
    {
        let c = s.get_char(i);
        let ghost pre = s@.take(i as int);
        let ghost cur = s@.take(i + 1);
        assert(cur.drop_last() =~= pre);
        assert(cur.last() == c);
        if is_whitespace(c) {
            if in_word {
                let word: String = s.substring_char(start, i).to_owned();
                let ghost before = out@;
                out.push(word);
                assert(views(out@) =~= views(before).push(word@)) by {
                    assert(out@ =~= before.push(word));
                }
                in_word = false;
            }
        } else {
            if in_word {
                assert(i >= 1);
                assert(cur[cur.len() - 2] == s@[i - 1]);
                assert(s@.subrange(start as int, i + 1) =~= s@.subrange(start as int, i as int).push(
                    c,
                ));
                assert(views(out@).push(s@.subrange(start as int, i + 1)) =~= words(pre).update(
                    words(pre).len() - 1,
                    words(pre).last().push(c),
                ));
            } else {
                if i > 0 {
                    assert(cur[cur.len() - 2] == s@[i - 1]);
                }
                assert(s@.subrange(i as int, i + 1) =~= seq![c]);
                start = i;
                in_word = true;
            }
        }
        i = i + 1;
    }
    assert(s@.take(n as int) =~= s@);
    if in_word {
        let word: String = s.substring_char(start, n).to_owned();
        let ghost before = out@;
        out.push(word);
        assert(views(out@) =~= views(before).push(word@)) by {
            assert(out@ =~= before.push(word));
        }
    }
    out
}

/// Joins `parts` with `sep` between neighbours, as `parts.join(sep)` does.
pub fn join_strings(parts: &Vec<String>, sep: &str) -> (res: String)
    ensures
        res@ == join(views(parts@), sep@),
{
    let mut res = String::new();
    let n = parts.len();
    let ghost pv = views(parts@);
    let mut i: usize = 0;
    while i < n
        invariant
            n == parts@.len(),
            pv == views(parts@),
            0 <= i <= n,
            res@ == join(pv.take(i as int), sep@),
        decreases n - i,
    {
        assert(pv.take(i + 1).drop_last() =~= pv.take(i as int));
        if i != 0 {
            res.append(sep);
        }
        res.append(parts[i].as_str());
        assert(pv.take(i + 1).last() == parts@[i as int]@);
        if i == 0 {
            assert(res@ =~= join(pv.take(1), sep@));
        }
        i = i + 1;
    }
    assert(pv.take(n as int) =~= pv);
    res
}

// ---------------------------------------------------------------------------
// Laws of tokenizing
// ---------------------------------------------------------------------------

/// A text whose last character is not whitespace has at least one token.
proof fn lemma_words_nonempty(s: Seq<char>)
    requires
        s.len() > 0,
        !is_space(s.last()),
    ensures
        words(s).len() > 0,
    decreases s.len(),
{
    if s.len() > 1 && !is_space(s[s.len() - 2]) {
        let p = s.drop_last();
        assert(p.last() == s[s.len() - 2]);
        lemma_words_nonempty(p);
    }
}

/// Every token that `words` yields is non-empty and free of whitespace.
pub proof fn lemma_words_are_tokens(s: Seq<char>)
    ensures
        all_tokens(words(s)),
    decreases s.len(),
{
    if s.len() > 0 {
        let p = s.drop_last();
        lemma_words_are_tokens(p);
        let prev = words(p);
        let c = s.last();
        if !is_space(c) && !(s.len() == 1 || is_space(s[s.len() - 2])) {
            assert(p.last() == s[s.len() - 2]);
            lemma_words_nonempty(p);
            let w = prev.last().push(c);
            assert(is_token(prev[prev.len() - 1]));
            assert(is_token(w)) by {
                assert forall|i: int| 0 <= i < w.len() implies !#[trigger] is_space(w[i]) by {
                    if i < w.len() - 1 {
                        assert(w[i] == prev[prev.len() - 1][i]);
                    }
                }
            }
            assert forall|i: int| 0 <= i < words(s).len() implies #[trigger] is_token(
                words(s)[i],
            ) by {
                if i < prev.len() - 1 {
                    assert(words(s)[i] == prev[i]);
                }
            }
        } else if !is_space(c) {
            assert(is_token(seq![c]));
            assert forall|i: int| 0 <= i < words(s).len() implies #[trigger] is_token(
                words(s)[i],
            ) by {
                if i < prev.len() {
                    assert(words(s)[i] == prev[i]);
                }
            }
        }
    }
}

/// A text made only of whitespace has no tokens.
pub proof fn lemma_words_all_space(s: Seq<char>)
    requires
        all_space(s),
    ensures
        words(s) == Seq::<Seq<char>>::empty(),
    decreases s.len(),
{
    if s.len() > 0 {
        let p = s.drop_last();
        assert(is_space(s[s.len() - 1]));
        assert(all_space(p)) by {
            assert forall|i: int| 0 <= i < p.len() implies #[trigger] is_space(p[i]) by {
                assert(p[i] == s[i]);
            }
        }
        lemma_words_all_space(p);
    }
}

/// A single token is read back as exactly one token.
pub proof fn lemma_words_token(w: Seq<char>)
    requires
        is_token(w),
    ensures
        words(w) == seq![w],
    decreases w.len(),
{
    let p = w.drop_last();
    assert(!is_space(w[w.len() - 1]));
    if w.len() == 1 {
        assert(p.len() == 0);
        assert(words(p) == Seq::<Seq<char>>::empty());
        assert(words(w) == words(p).push(seq![w.last()]));
        assert(seq![w.last()] =~= w);
        assert(words(w) =~= seq![w]);
    } else {
        assert(is_token(p)) by {
            assert forall|i: int| 0 <= i < p.len() implies !#[trigger] is_space(p[i]) by {
                assert(p[i] == w[i]);
            }
        }
        lemma_words_token(p);
        assert(!is_space(w[w.len() - 2]));
        assert(p.push(w.last()) =~= w);
        assert(words(w) =~= seq![w]);
    }
}

/// Whitespace separates: the tokens of `s`, a whitespace character, then `t`
/// are the tokens of `s` followed by the tokens of `t`.
pub proof fn lemma_words_concat(s: Seq<char>, c: char, t: Seq<char>)
    requires
        is_space(c),
    ensures
        words(s + seq![c] + t) == words(s) + words(t),
    decreases t.len(),
{
    let u = s + seq![c] + t;
    if t.len() == 0 {
        assert(u.drop_last() =~= s);
        assert(words(s) + words(t) =~= words(s));
    } else {
        let t0 = t.drop_last();
        let d = t.last();
        lemma_words_concat(s, c, t0);
        let u0 = s + seq![c] + t0;
        assert(u.drop_last() =~= u0);
        assert(u.last() == d);
        let ws = words(s);
        let wt0 = words(t0);
        if is_space(d) {
            assert(words(u) == words(u0));
            assert(words(t) == wt0);
        } else {
            if t0.len() == 0 {
                assert(u[u.len() - 2] == c);
            } else {
                assert(u[u.len() - 2] == t0.last());
                assert(t[t.len() - 2] == t0.last());
            }
            if t0.len() == 0 || is_space(t0.last()) {
                assert(words(t) == wt0.push(seq![d]));
                assert(words(u) == (ws + wt0).push(seq![d]));
                assert((ws + wt0).push(seq![d]) =~= ws + wt0.push(seq![d]));
            } else {
                lemma_words_nonempty(t0);
                assert(words(t) == wt0.update(wt0.len() - 1, wt0.last().push(d)));
                let both = ws + wt0;
                assert(words(u) == both.update(both.len() - 1, both.last().push(d)));
                assert(both.last() == wt0.last());
                assert(both.update(both.len() - 1, both.last().push(d)) =~= ws + wt0.update(
                    wt0.len() - 1,
                    wt0.last().push(d),
                ));
            }
        }
    }
}

/// Whitespace around a text does not change its tokens (what `trim` relies on).
pub proof fn lemma_words_trim(a: Seq<char>, s: Seq<char>, b: Seq<char>)
    requires
        all_space(a),
        all_space(b),
    ensures
        words(a + s + b) == words(s),
    decreases b.len(),
{
    if b.len() > 0 {
        let b0 = b.drop_last();
        assert(all_space(b0)) by {
            assert forall|i: int| 0 <= i < b0.len() implies #[trigger] is_space(b0[i]) by {
                assert(b0[i] == b[i]);
            }
        }
        lemma_words_trim(a, s, b0);
        assert((a + s + b).drop_last() =~= a + s + b0);
        assert(is_space(b[b.len() - 1]));
    } else {
        assert(a + s + b =~= a + s);
        if a.len() > 0 {
            let a0 = a.drop_last();
            let c = a.last();
            assert(is_space(a[a.len() - 1]));
            assert(all_space(a0)) by {
                assert forall|i: int| 0 <= i < a0.len() implies #[trigger] is_space(a0[i]) by {
                    assert(a0[i] == a[i]);
                }
            }
            assert(a + s =~= a0 + seq![c] + s);
            lemma_words_concat(a0, c, s);
            lemma_words_all_space(a0);
            assert(Seq::<Seq<char>>::empty() + words(s) =~= words(s));
        }
    }
}

/// Joining tokens with single spaces and splitting the result again gives
/// the tokens back.
pub proof fn lemma_join_words_roundtrip(parts: Seq<Seq<char>>)
    requires
        all_tokens(parts),
    ensures
        words(join(parts, seq![' '])) == parts,
    decreases parts.len(),
{
    if parts.len() == 0 {
        assert(words(join(parts, seq![' '])) =~= parts);
    } else if parts.len() == 1 {
        assert(is_token(parts[0]));
        lemma_words_token(parts[0]);
        assert(seq![parts[0]] =~= parts);
    } else {
        let p0 = parts.drop_last();
        assert(all_tokens(p0)) by {
            assert forall|i: int| 0 <= i < p0.len() implies #[trigger] is_token(p0[i]) by {
                assert(p0[i] == parts[i]);
            }
        }
        lemma_join_words_roundtrip(p0);
        assert(is_token(parts[parts.len() - 1]));
        lemma_words_token(parts.last());
        assert(is_space(' '));
        lemma_words_concat(join(p0, seq![' ']), ' ', parts.last());
        assert(p0 + seq![parts.last()] =~= parts);
    }
}

/// Splitting is idempotent under re-joining: the tokens of a text, joined
/// with single spaces, split into the same tokens.
pub proof fn lemma_words_normalize(s: Seq<char>)
    ensures
        words(join(words(s), seq![' '])) == words(s),
{
    lemma_words_are_tokens(s);
    lemma_join_words_roundtrip(words(s));
}

} // verus!
