//! Splitting text into lines and words the way `str::lines` and
//! `str::split_whitespace` do.

use vstd::prelude::*;
use crate::text::{is_white_space, is_whitespace, slice_chars, trim_end};

verus! {

/// Index of the first `'\n'` in `s`, or `s.len()` when there is none.
pub open spec fn newline_index(s: Seq<char>) -> int
    decreases s.len(),
{
    if s.len() == 0 {
        0
    } else if s[0] == '\n' {
        0
    } else {
        1 + newline_index(s.drop_first())
    }
}

/// `l` without one trailing `'\r'`.
pub open spec fn strip_cr(l: Seq<char>) -> Seq<char> {
    if l.len() > 0 && l.last() == '\r' {
        l.drop_last()
    } else {
        l
    }
}

/// The lines of `s` as `str::lines` yields them: split at each `'\n'`, a line
/// ended by `"\r\n"` loses its `'\r'`, and no empty line follows a final `'\n'`.
pub open spec fn text_lines(s: Seq<char>) -> Seq<Seq<char>>
    decreases s.len(),
{
    let k = newline_index(s);
    if s.len() == 0 {
        Seq::empty()
    } else if k < 0 || k >= s.len() {
        seq![s]
    } else {
        seq![strip_cr(s.take(k))] + text_lines(s.skip(k + 1))
    }
}

pub proof fn lemma_newline_index_at(s: Seq<char>, k: int)
    requires
        0 <= k < s.len(),
        s[k] == '\n',
        forall|j: int| 0 <= j < k ==> s[j] != '\n',
    ensures
        newline_index(s) == k,
    decreases k,
{
    if k > 0 {
        lemma_newline_index_at(s.drop_first(), k - 1);
    }
}

pub proof fn lemma_newline_index_none(s: Seq<char>)
    requires
        forall|j: int| 0 <= j < s.len() ==> s[j] != '\n',
    ensures
        newline_index(s) == s.len(),
    decreases s.len(),
{
    if s.len() > 0 {
        lemma_newline_index_none(s.drop_first());
    }
}

/// Start of the trailing run of non-white characters of `t`.
pub open spec fn word_start(t: Seq<char>) -> int
    decreases t.len(),
{
    if t.len() == 0 {
        0
    } else if is_white_space(t.last()) {
        t.len() as int
    } else {
        word_start(t.drop_last())
    }
}

/// The last white-space separated word of `s`, as
/// `str::split_whitespace().last()` gives it.
pub open spec fn last_word(s: Seq<char>) -> Option<Seq<char>> {
    let t = trim_end(s);
    if t.len() == 0 {
        None
    } else {
        Some(t.skip(word_start(t)))
    }
}

/// The last white-space separated word of `v`, if any.
pub fn last_word_of(v: &[char]) -> (r: Option<Vec<char>>)
    ensures
        match r {
            Some(w) => last_word(v@) == Some(w@),
            None => last_word(v@) is None,
        },
{
    let mut j: usize = v.len();
    assert(v@.take(v.len() as int) == v@);
    while j > 0 && is_whitespace(v[j - 1])
        invariant
            j <= v.len(),
            trim_end(v@) == trim_end(v@.take(j as int)),
        decreases j,
    {
        assert(v@.take(j as int).drop_last() == v@.take(j - 1));
        j = j - 1;
    }
    let ghost t = v@.take(j as int);
    assert(trim_end(t) == t);
    if j == 0 {
        return None;
    }
    let mut k: usize = j;
    assert(t.take(j as int) == t);
    while k > 0 && !is_whitespace(v[k - 1])
        invariant
            k <= j <= v.len(),
            t == v@.take(j as int),
            word_start(t) == word_start(t.take(k as int)),
        decreases k,
    {
        assert(t.take(k as int).drop_last() == t.take(k - 1));
        k = k - 1;
    }
    assert(word_start(t.take(k as int)) == k);
    assert(t.skip(k as int) == v@.subrange(k as int, j as int));
    Some(slice_chars(v, k, j))
}

/// The lines of `v` from `start` on, when the line that begins at `start` ends
/// with the `'\n'` at `i`.
pub proof fn lemma_lines_split(v: Seq<char>, start: int, i: int)
    requires
        0 <= start <= i < v.len(),
        v[i] == '\n',
        forall|j: int| start <= j < i ==> v[j] != '\n',
    ensures
        text_lines(v.skip(start)) == seq![strip_cr(v.subrange(start, i))] + text_lines(v.skip(i + 1)),
{
    let t = v.skip(start);
    assert forall|j: int| 0 <= j < i - start implies t[j] != '\n' by {
        assert(t[j] == v[start + j]);
    }
    lemma_newline_index_at(t, i - start);
    assert(t.skip(i - start + 1) == v.skip(i + 1));
    assert(t.take(i - start) == v.subrange(start, i));
}

/// The lines of `v` from `start` on, when no `'\n'` follows `start`.
pub proof fn lemma_lines_tail(v: Seq<char>, start: int)
    requires
        0 <= start <= v.len(),
        forall|j: int| start <= j < v.len() ==> v[j] != '\n',
    ensures
        text_lines(v.skip(start)) == (if start < v.len() {
            seq![v.skip(start)]
        } else {
            Seq::<Seq<char>>::empty()
        }),
{
    let t = v.skip(start);
    if start < v.len() {
        assert forall|j: int| 0 <= j < t.len() implies t[j] != '\n' by {
            assert(t[j] == v[start + j]);
        }
        lemma_newline_index_none(t);
    } else {
        assert(t.len() == 0);
    }
}

/// The views of a list of character vectors.
pub open spec fn lines_view(v: Seq<Vec<char>>) -> Seq<Seq<char>> {
    v.map_values(|l: Vec<char>| l@)
}

/// `v` without one trailing `'\r'`.
fn strip_cr_of(v: Vec<char>) -> (r: Vec<char>)
    ensures
        r@ == strip_cr(v@),
{
    let ghost orig = v@;
    let mut v = v;
    if v.len() > 0 && v[v.len() - 1] == '\r' {
        v.pop();
        assert(v@ =~= strip_cr(orig));
    }
    v
}

/// The lines of `text`, as `str::lines` yields them.
pub fn split_lines(text: &[char]) -> (r: Vec<Vec<char>>)
    ensures
        lines_view(r@) == text_lines(text@),
{
    let n = text.len();
    let mut out: Vec<Vec<char>> = Vec::new();
    let mut start: usize = 0;
    let mut i: usize = 0;
    assert(text@.skip(0) == text@);
    while i < n
        invariant
            n == text@.len(),
            start <= i <= n,
            text_lines(text@) == lines_view(out@) + text_lines(text@.skip(start as int)),
            forall|j: int| start <= j < i ==> text@[j] != '\n',
        decreases n - i,
    {
        if text[i] == '\n' {
            let line = strip_cr_of(slice_chars(text, start, i));
            proof { lemma_lines_split(text@, start as int, i as int); }
            let ghost before = out@;
            out.push(line);
            assert(lines_view(out@) == lines_view(before).push(line@));
            assert(text_lines(text@) == lines_view(out@) + text_lines(text@.skip(i + 1)));
            start = i + 1;
        }
        i = i + 1;
    }
    proof { lemma_lines_tail(text@, start as int); }
    if start < n {
        let line = slice_chars(text, start, n);
        let ghost before = out@;
        out.push(line);
        assert(lines_view(out@) == lines_view(before).push(line@));
        assert(line@ == text@.skip(start as int));
    }
    assert(text_lines(text@) == lines_view(out@));
    out
}

} // verus!
