//! Paths, held as text. Adjoining a path to another is written here and
//! proved; the component parsing of `std::path::Path` (`file_name`, `parent`,
//! `file_stem`) is called through the trusted items of this module.
use vstd::prelude::*;
use crate::text::{
    chars_of, concat_str, ends_with, lemma_rfind_char_some, owned, push_char, rfind_char_before,
    rfind_char_in, string_of_range,
};

verus! {

/// What `Path::join` gives on Unix: an absolute `part` replaces `base`;
/// otherwise `part` is appended, after a `/` unless `base` is empty or
/// already ends with one.
pub open spec fn path_join(base: Seq<char>, part: Seq<char>) -> Seq<char> {
    if part.len() > 0 && part[0] == '/' {
        part
    } else if base.len() == 0 || base.last() == '/' {
        base + part
    } else {
        base + seq!['/'] + part
    }
}

/// The text of an optional `String`.
pub open spec fn opt_view(o: Option<String>) -> Option<Seq<char>> {
    match o {
        Some(s) => Some(s@),
        None => None,
    }
}

/// A component that `Path` treats as a plain name: not empty, no `/`,
/// and neither `.` nor `..`.
pub open spec fn is_normal_component(n: Seq<char>) -> bool {
    &&& n.len() > 0
    &&& !n.contains('/')
    &&& n != seq!['.']
    &&& n != seq!['.', '.']
}

/// The final component of `p[..end]`, as `Path::file_name` gives it on
/// Unix: components are separated by `/`, with empty and `.` components
/// dropped; the file name is the last one left, and there is none when no
/// component is left or the last one is `..`.
pub open spec fn file_name_upto(p: Seq<char>, end: int) -> Option<Seq<char>>
    decreases end,
{
    match rfind_char_before(p, '/', end) {
        None => {
            let seg = p.subrange(0, end);
            if seg.len() == 0 || seg == seq!['.'] || seg == seq!['.', '.'] {
                None
            } else {
                Some(seg)
            }
        },
        Some(i) => {
            let seg = p.subrange(i + 1, end);
            if seg.len() == 0 || seg == seq!['.'] {
                if 0 <= i < end {
                    file_name_upto(p, i)
                } else {
                    None
                }
            } else if seg == seq!['.', '.'] {
                None
            } else {
                Some(seg)
            }
        },
    }
}

/// The final component of a path, as `Path::file_name` gives it on Unix.
pub open spec fn path_file_name(p: Seq<char>) -> Option<Seq<char>> {
    file_name_upto(p, p.len() as int)
}

/// The file name of a path that ends in a plain name is that name: of
/// `n`, and of `d/n`.
pub proof fn lemma_file_name_of_plain_name(p: Seq<char>, i: int)
    requires
        -1 <= i < p.len(),
        i >= 0 ==> p[i] == '/',
        is_normal_component(p.subrange(i + 1, p.len() as int)),
    ensures
        path_file_name(p) == Some(p.subrange(i + 1, p.len() as int)),
{
    let n = p.subrange(i + 1, p.len() as int);
    let end = p.len() as int;
    match rfind_char_before(p, '/', end) {
        None => {
            if i >= 0 {
                lemma_rfind_is_last(p, '/', end, i);
            }
            assert(p.subrange(0, end) == n);
        },
        Some(j) => {
            lemma_rfind_char_some(p, '/', end);
            if j > i {
                assert(n[j - i - 1] == p[j]);
                assert(n.contains('/'));
            }
            if j < i {
                lemma_rfind_is_last(p, '/', end, i);
            }
            assert(j == i);
        },
    }
}

proof fn lemma_rfind_is_last(p: Seq<char>, c: char, end: int, k: int)
    requires
        0 <= k < end <= p.len(),
        p[k] == c,
    ensures
        rfind_char_before(p, c, end) is Some,
        k <= rfind_char_before(p, c, end)->0,
    decreases end,
{
    if p[end - 1] != c {
        lemma_rfind_is_last(p, c, end - 1, k);
    }
}

/// The path without its final component, as `Path::parent` gives it.
pub uninterp spec fn path_parent(p: Seq<char>) -> Option<Seq<char>>;

/// The stem of a file name, by the rule that `Path::file_stem` documents:
/// the whole name when it holds no `.` or only a leading one, otherwise the
/// part before the final `.`.
pub open spec fn stem_of_name(name: Seq<char>) -> Seq<char> {
    match rfind_char_before(name, '.', name.len() as int) {
        None => name,
        Some(i) => if i == 0 {
            name
        } else {
            name.subrange(0, i)
        },
    }
}

/// What `Path::file_stem` gives for a path.
pub open spec fn path_file_stem(p: Seq<char>) -> Option<Seq<char>> {
    match path_file_name(p) {
        None => None,
        Some(n) => Some(stem_of_name(n)),
    }
}

/// Adjoins `part` to `base` (see `path_join`).
pub fn join(base: &str, part: &str) -> (r: String)
    ensures
        r@ == path_join(base@, part@),
{
    let plen: usize = part.unicode_len();
    if plen > 0 && part.get_char(0) == '/' {
        return part.to_owned();
    }
    let blen: usize = base.unicode_len();
    if blen == 0 || base.get_char(blen - 1) == '/' {
        concat_str(base, part)
    } else {
        let mut r = base.to_owned();
        push_char(&mut r, '/');
        r.append(part);
        r
    }
}

/// Adjoining a path to the empty path gives that path: `PathBuf::new().join(p)` is `p`.
pub proof fn lemma_join_empty_base(part: Seq<char>)
    ensures
        path_join(Seq::empty(), part) == part,
{
    assert(Seq::<char>::empty() + part =~= part);
}

/// `PathBuf::new().join(part)`.
pub fn path_of(part: &str) -> (r: String)
    ensures
        r@ == path_join(Seq::empty(), part@),
        r@ == part@,
{
    let base = String::new();
    proof {
        lemma_join_empty_base(part@);
    }
    join(base.as_str(), part)
}

/// `Path::file_name`: the final component of `p`. The contract states what
/// the documentation of `Path::file_name` and `Path::components` gives on
/// Unix (`path_file_name`): repeated separators and `.` components are
/// normalized away, and there is no file name when the path ends in `..` or
/// has no component but a root or `.`.
#[verifier::external_body]
pub(crate) fn file_name_of(p: &str) -> (res: Option<String>)
    ensures
        opt_view(res) == path_file_name(p@),
{
    match std::path::Path::new(p).file_name() {
        Some(n) => Some(n.to_string_lossy().into_owned()),
        None => None,
    }
}

/// `Path::parent`: `p` without its final component. Its result is named
/// `path_parent`; beyond that name, the contract states what the
/// documentation shows: the empty path and `/` have no parent, a single
/// plain component has the empty parent, `/name` has `/`, and `d/name` has
/// `d` when `d` does not end in a separator or a `.` component (which the
/// documentation of `Path::components` says are normalized away). How
/// other forms are handled is left unsaid here.
#[verifier::external_body]
pub(crate) fn parent_of(p: &str) -> (res: Option<String>)
    ensures
        opt_view(res) == path_parent(p@),
        p@.len() == 0 ==> res is None,
        p@ == seq!['/'] ==> res is None,
        is_normal_component(p@) ==> opt_view(res) == Some(Seq::<char>::empty()),
        p@.len() > 0 && p@[0] == '/' && is_normal_component(p@.drop_first()) ==> opt_view(res)
            == Some(seq!['/']),
        forall|i: int|
            0 < i < p@.len() && #[trigger] p@[i] == '/' && p@[i - 1] != '/' && !ends_with(
                p@.subrange(0, i),
                seq!['/', '.'],
            ) && is_normal_component(p@.subrange(i + 1, p@.len() as int)) ==> opt_view(res)
                == Some(p@.subrange(0, i)),
{
    match std::path::Path::new(p).parent() {
        Some(q) => Some(q.to_string_lossy().into_owned()),
        None => None,
    }
}

/// The stem of a file name (`stem_of_name`).
pub fn stem_of(name: &str) -> (r: String)
    ensures
        r@ == stem_of_name(name@),
{
    let v = chars_of(name);
    match rfind_char_in(&v, '.', v.len()) {
        None => owned(name),
        Some(i) => if i == 0 {
            owned(name)
        } else {
            proof {
                lemma_rfind_char_some(v@, '.', v@.len() as int);
            }
            string_of_range(&v, 0, i)
        },
    }
}

/// The stem of the file name of `p`, as `Path::file_stem` gives it.
pub fn file_stem_of(p: &str) -> (res: Option<String>)
    ensures
        opt_view(res) == path_file_stem(p@),
{
    match file_name_of(p) {
        None => None,
        Some(n) => Some(stem_of(n.as_str())),
    }
}

} // verus!
