//! A model of file-system paths as a base followed by joined components, and of
//! the probe that tells whether a file exists at a path.

use vstd::prelude::*;
use crate::text::{chars_of, push_all, string_of};

verus! {

/// A path: `parts[0]` is the base it was made from (which may itself hold
/// separators, such as a drive and directories), and each further part is a
/// component joined onto it. On Windows it stands for
/// `PathBuf::from(parts[0]).join(parts[1])...`.
#[derive(Debug)]
pub struct FsPath {
    pub parts: Vec<String>,
}

impl View for FsPath {
    type V = Seq<Seq<char>>;

    open spec fn view(&self) -> Seq<Seq<char>> {
        self.parts@.map_values(|p: String| p@)
    }
}

/// A copy of `s`.
fn copy_string(s: &String) -> (r: String)
    ensures
        r@ == s@,
{
    s.clone()
}

impl FsPath {
    /// The path made of `base` alone, as `Path::new(base)`.
    pub fn new(base: &str) -> (p: FsPath)
        ensures
            p@ == seq![base@],
    {
        let mut parts: Vec<String> = Vec::new();
        parts.push(String::from_str(base));
        let p = FsPath { parts };
        assert(p@ =~= seq![base@]);
        p
    }

    /// A copy of this path.
    pub fn duplicate(&self) -> (p: FsPath)
        ensures
            p@ == self@,
    {
        let mut parts: Vec<String> = Vec::new();
        let mut i: usize = 0;
        while i < self.parts.len()
            invariant
                i <= self.parts.len(),
                parts@.len() == i,
                forall|j: int| 0 <= j < i ==> (#[trigger] parts@[j])@ == self.parts@[j]@,
            decreases self.parts.len() - i,
        {
            parts.push(copy_string(&self.parts[i]));
            i = i + 1;
        }
        let p = FsPath { parts };
        assert(p@ =~= self@);
        p
    }

    /// This path with the component `name` joined on, as `Path::join`.
    pub fn join(&self, name: &str) -> (p: FsPath)
        ensures
            p@ == self@.push(name@),
    {
        let mut p = self.duplicate();
        p.parts.push(String::from_str(name));
        assert(p@ =~= self@.push(name@));
        p
    }

    /// The path without its last component; a path that is only a base has
    /// no parent here.
    pub fn parent(&self) -> (r: Option<FsPath>)
        ensures
            match r {
                Some(q) => self@.len() >= 2 && q@ == self@.drop_last(),
                None => self@.len() < 2,
            },
    {
        if self.parts.len() < 2 {
            return None;
        }
        let mut parts: Vec<String> = Vec::new();
        let mut i: usize = 0;
        let last = self.parts.len() - 1;
        while i < last
            invariant
                i <= last,
                last == self.parts.len() - 1,
                parts@.len() == i,
                forall|j: int| 0 <= j < i ==> (#[trigger] parts@[j])@ == self.parts@[j]@,
            decreases last - i,
        {
            parts.push(copy_string(&self.parts[i]));
            i = i + 1;
        }
        let q = FsPath { parts };
        assert(q@ =~= self@.drop_last());
        Some(q)
    }
}

/// Whether `c` separates path components on Windows.
pub open spec fn is_separator(c: char) -> bool {
    c == '\\' || c == '/'
}

/// Whether `a` is exactly a drive such as `C:`: an ASCII letter and a colon.
pub open spec fn is_bare_drive(a: Seq<char>) -> bool {
    a.len() == 2 && a[1] == ':' && (('A' <= a[0] && a[0] <= 'Z') || ('a' <= a[0] && a[0] <= 'z'))
}

/// The text `a` with the component `x` pushed on, as `PathBuf::push` writes it
/// on Windows for a relative `x`: a `\\` goes between them unless `a` is empty,
/// already ends with a separator, or is a bare drive (`C:` and `x` give `C:x`).
pub open spec fn join_text(a: Seq<char>, x: Seq<char>) -> Seq<char> {
    if a.len() == 0 || is_separator(a.last()) || is_bare_drive(a) {
        a + x
    } else {
        a + seq!['\\'] + x
    }
}

/// The text a path stands for: its base with each component pushed on.
pub open spec fn rendered(v: Seq<Seq<char>>) -> Seq<char>
    decreases v.len(),
{
    if v.len() == 0 {
        Seq::empty()
    } else if v.len() == 1 {
        v[0]
    } else {
        join_text(rendered(v.drop_last()), v.last())
    }
}

/// Pushing components onto a path and pushing them onto the path's text give the
/// same text.
pub proof fn lemma_rendered_append(v: Seq<Seq<char>>, w: Seq<Seq<char>>)
    requires
        v.len() >= 1,
    ensures
        rendered(v + w) == rendered(seq![rendered(v)] + w),
    decreases w.len(),
{
    if w.len() == 0 {
        assert(v + w == v);
        assert(seq![rendered(v)] + w == seq![rendered(v)]);
    } else {
        lemma_rendered_append(v, w.drop_last());
        assert((v + w).drop_last() == v + w.drop_last());
        assert((seq![rendered(v)] + w).drop_last() == seq![rendered(v)] + w.drop_last());
    }
}

impl FsPath {
    /// The text this path stands for on Windows.
    pub fn render(&self) -> (r: String)
        ensures
            r@ == rendered(self@),
    {
        let mut out: Vec<char> = Vec::new();
        let mut i: usize = 0;
        while i < self.parts.len()
            invariant
                i <= self.parts.len(),
                out@ == rendered(self@.take(i as int)),
            decreases self.parts.len() - i,
        {
            let part = chars_of(self.parts[i].as_str());
            assert(self@.take(i + 1).drop_last() == self@.take(i as int));
            let bare_drive = out.len() == 2 && out[1] == ':' && (('A' <= out[0] && out[0] <= 'Z') || (
            'a' <= out[0] && out[0] <= 'z'));
            if i > 0 && out.len() > 0 && out[out.len() - 1] != '\\' && out[out.len() - 1] != '/'
                && !bare_drive {
                out.push('\\');
            }
            push_all(&mut out, part.as_slice());
            assert(out@ =~= rendered(self@.take(i + 1)));
            i = i + 1;
        }
        assert(self@.take(self.parts.len() as int) == self@);
        string_of(out.as_slice())
    }
}

/// The path `base` joined with each of `names` in turn.
pub open spec fn join_all(base: Seq<Seq<char>>, names: Seq<Seq<char>>) -> Seq<Seq<char>> {
    base + names
}

/// Whether the probe `f` reports a file at a path with view `v`.
pub open spec fn probe_reports<F: Fn(&FsPath) -> bool>(f: F, v: Seq<Seq<char>>) -> bool {
    exists|p: FsPath| p@ == v && #[trigger] call_ensures(f, (&p,), true)
}

/// Whether the probe `f` denies a file at a path with view `v`.
pub open spec fn probe_denies<F: Fn(&FsPath) -> bool>(f: F, v: Seq<Seq<char>>) -> bool {
    exists|p: FsPath| p@ == v && #[trigger] call_ensures(f, (&p,), false)
}

/// The probe `f` gives one answer for all paths with the same view, as a
/// file system that does not change while it is asked does.
pub open spec fn probe_is_consistent<F: Fn(&FsPath) -> bool>(f: F) -> bool {
    forall|p1: FsPath, p2: FsPath, b1: bool, b2: bool|
        p1@ == p2@ && #[trigger] call_ensures(f, (&p1,), b1) && #[trigger] call_ensures(
            f,
            (&p2,),
            b2,
        ) ==> b1 == b2
}

/// The probe `f` accepts every path.
pub open spec fn probe_accepts_all<F: Fn(&FsPath) -> bool>(f: F) -> bool {
    forall|p: FsPath| #[trigger] call_requires(f, (&p,))
}

/// Asks the probe `f` whether a file exists at `p`.
pub fn probe<F: Fn(&FsPath) -> bool>(f: &F, p: &FsPath) -> (b: bool)
    requires
        probe_accepts_all(*f),
    ensures
        call_ensures(*f, (p,), b),
        b ==> probe_reports(*f, p@),
        !b ==> probe_denies(*f, p@),
        probe_is_consistent(*f) ==> b == probe_reports(*f, p@),
{
    let b = f(p);
    proof {
        if !b {
            assert(call_ensures(*f, (p,), false));
            assert(probe_denies(*f, p@));
        } else {
            assert(call_ensures(*f, (p,), true));
            assert(probe_reports(*f, p@));
        }
        if probe_is_consistent(*f) && !b && probe_reports(*f, p@) {
            let q = choose|q: FsPath| q@ == p@ && #[trigger] call_ensures(*f, (&q,), true);
            assert(call_ensures(*f, (p,), false));
            assert(false);
        }
    }
    b
}

} // verus!
