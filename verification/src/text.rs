//! Character-level text operations: prefixes and suffixes, repeated trimming,
//! substring search, and the conversions between `str`, `String` and `Vec<char>`.
use vstd::prelude::*;

verus! {

/// `s` begins with `pre`.
pub open spec fn starts_with(s: Seq<char>, pre: Seq<char>) -> bool {
    pre.len() <= s.len() && s.subrange(0, pre.len() as int) == pre
}

/// `s` ends with `suf`.
pub open spec fn ends_with(s: Seq<char>, suf: Seq<char>) -> bool {
    suf.len() <= s.len() && s.subrange(s.len() - suf.len(), s.len() as int) == suf
}

/// `pat` occurs in `s` starting at index `i`.
pub open spec fn match_at(s: Seq<char>, pat: Seq<char>, i: int) -> bool {
    0 <= i && i + pat.len() <= s.len() && s.subrange(i, i + pat.len()) == pat
}

/// What `str::trim_end_matches` gives for a string pattern: every trailing
/// occurrence of `pat` is removed, one after the other.
pub open spec fn trim_end_matches(s: Seq<char>, pat: Seq<char>) -> Seq<char>
    decreases s.len(),
{
    if pat.len() > 0 && ends_with(s, pat) {
        trim_end_matches(s.subrange(0, s.len() - pat.len()), pat)
    } else {
        s
    }
}

/// What `str::trim_start_matches` gives for a string pattern: every leading
/// occurrence of `pat` is removed, one after the other.
pub open spec fn trim_start_matches(s: Seq<char>, pat: Seq<char>) -> Seq<char>
    decreases s.len(),
{
    if pat.len() > 0 && starts_with(s, pat) {
        trim_start_matches(s.subrange(pat.len() as int, s.len() as int), pat)
    } else {
        s
    }
}

/// The first index at or after `i` where `pat` occurs in `s`.
pub open spec fn find_from(s: Seq<char>, pat: Seq<char>, i: int) -> Option<int>
    decreases s.len() - i,
{
    if i < 0 || i + pat.len() > s.len() {
        None
    } else if match_at(s, pat, i) {
        Some(i)
    } else if i >= s.len() {
        None
    } else {
        find_from(s, pat, i + 1)
    }
}

/// The first index where `pat` occurs in `s` (`str::find`).
pub open spec fn find(s: Seq<char>, pat: Seq<char>) -> Option<int> {
    find_from(s, pat, 0)
}

/// The last index below `end` that holds `c` (`str::rfind` on `s[..end]`).
pub open spec fn rfind_char_before(s: Seq<char>, c: char, end: int) -> Option<int>
    decreases end,
{
    if end <= 0 {
        None
    } else if s[end - 1] == c {
        Some(end - 1)
    } else {
        rfind_char_before(s, c, end - 1)
    }
}

/// `s` holds `pat` somewhere (`str::contains`).
pub open spec fn contains(s: Seq<char>, pat: Seq<char>) -> bool {
    find(s, pat) is Some
}

/// What a successful search gives: a match at the index found, and none
/// between the start of the search and it.
pub proof fn lemma_find_from_some(s: Seq<char>, pat: Seq<char>, i: int)
    requires
        find_from(s, pat, i) is Some,
    ensures
        match_at(s, pat, find_from(s, pat, i)->0),
        i <= find_from(s, pat, i)->0,
        forall|j: int| i <= j < find_from(s, pat, i)->0 ==> !match_at(s, pat, j),
    decreases s.len() - i,
{
    if !match_at(s, pat, i) && i < s.len() {
        lemma_find_from_some(s, pat, i + 1);
    }
}

/// What a successful backward search gives: an index below `end` that
/// holds `c`.
pub proof fn lemma_rfind_char_some(s: Seq<char>, c: char, end: int)
    requires
        rfind_char_before(s, c, end) is Some,
    ensures
        0 <= rfind_char_before(s, c, end)->0 < end,
        s[rfind_char_before(s, c, end)->0] == c,
    decreases end,
{
    if s[end - 1] != c {
        lemma_rfind_char_some(s, c, end - 1);
    }
}

/// Appends one character to a `String` (`String::push`).
#[verifier::external_body]
pub(crate) fn push_char(s: &mut String, c: char)
    ensures
        final(s)@ == old(s)@.push(c),
{
    s.push(c);
}

/// The characters of `s`, in order.
pub fn chars_of(s: &str) -> (v: Vec<char>)
    ensures
        v@ == s@,
{
    let n: usize = s.unicode_len();
    let mut v: Vec<char> = Vec::new();
    let mut i: usize = 0;
    while i < n
        invariant
            n == s@.len(),
            i <= n,
            v@ == s@.subrange(0, i as int),
        decreases n - i,
    {
        let c = s.get_char(i);
        v.push(c);
        i += 1;
    }
    v
}

/// The `String` made of `v[from..to]`.
pub fn string_of_range(v: &Vec<char>, from: usize, to: usize) -> (s: String)
    requires
        from <= to <= v@.len(),
    ensures
        s@ == v@.subrange(from as int, to as int),
{
    let mut s = String::new();
    let mut i: usize = from;
    while i < to
        invariant
            from <= i <= to <= v@.len(),
            s@ == v@.subrange(from as int, i as int),
        decreases to - i,
    {
        push_char(&mut s, v[i]);
        i += 1;
    }
    s
}

/// A new `String` equal to `s`.
pub fn owned(s: &str) -> (r: String)
    ensures
        r@ == s@,
{
    s.to_owned()
}

/// The concatenation of `a` and `b`.
pub fn concat_str(a: &str, b: &str) -> (r: String)
    ensures
        r@ == a@ + b@,
{
    let mut r = a.to_owned();
    r.append(b);
    r
}

/// Whether `pat` occurs in `s` at index `i`.
pub fn matches_at(s: &Vec<char>, pat: &Vec<char>, i: usize) -> (res: bool)
    ensures
        res == match_at(s@, pat@, i as int),
{
    let n: usize = s.len();
    if i > n || pat.len() > n - i {
        return false;
    }
    let mut k: usize = 0;
    while k < pat.len()
        invariant
            i + pat@.len() <= s@.len(),
            s@.len() <= usize::MAX,
            k <= pat@.len(),
            forall|j: int| 0 <= j < k ==> s@[i + j] == pat@[j],
        decreases pat@.len() - k,
    {
        assert(i + k < s@.len());
        if s[i + k] != pat[k] {
            assert(s@.subrange(i as int, i + pat@.len())[k as int] != pat@[k as int]);
            return false;
        }
        k += 1;
    }
    assert(s@.subrange(i as int, i + pat@.len()) =~= pat@);
    true
}

/// The end index left by removing every trailing occurrence of `pat` from `s`.
pub fn trim_end_len(s: &Vec<char>, pat: &Vec<char>) -> (end: usize)
    ensures
        end <= s@.len(),
        s@.subrange(0, end as int) == trim_end_matches(s@, pat@),
{
    let mut end: usize = s.len();
    if pat.len() == 0 {
        assert(s@.subrange(0, end as int) =~= s@);
        return end;
    }
    let ghost s0 = s@;
    assert(s@.subrange(0, end as int) =~= s@);
    loop
        invariant
            end <= s@.len(),
            pat@.len() > 0,
            s0 == s@,
            trim_end_matches(s@, pat@) == trim_end_matches(s@.subrange(0, end as int), pat@),
        decreases end,
    {
        let ghost cur = s@.subrange(0, end as int);
        if end >= pat.len() && matches_at(s, pat, end - pat.len()) {
            assert(cur.subrange(cur.len() - pat@.len(), cur.len() as int) =~= s@.subrange(
                end - pat@.len(),
                end as int,
            ));
            assert(cur.subrange(0, cur.len() - pat@.len()) =~= s@.subrange(
                0,
                end - pat@.len(),
            ));
            end = end - pat.len();
        } else {
            proof {
                if ends_with(cur, pat@) {
                    assert(cur.subrange(cur.len() - pat@.len(), cur.len() as int) =~= s@.subrange(
                        end - pat@.len(),
                        end as int,
                    ));
                }
            }
            return end;
        }
    }
}

/// The start index left by removing every leading occurrence of `pat` from `s`.
pub fn trim_start_pos(s: &Vec<char>, pat: &Vec<char>) -> (start: usize)
    ensures
        start <= s@.len(),
        s@.subrange(start as int, s@.len() as int) == trim_start_matches(s@, pat@),
{
    // The length of a vector fits in a `usize`; the loop below relies on it.
    let len: usize = s.len();
    assert(len == s@.len());
    let mut start: usize = 0;
    assert(s@.subrange(0, s@.len() as int) =~= s@);
    if pat.len() == 0 {
        return start;
    }
    loop
        invariant
            start <= s@.len(),
            s@.len() <= usize::MAX,
            pat@.len() > 0,
            trim_start_matches(s@, pat@) == trim_start_matches(
                s@.subrange(start as int, s@.len() as int),
                pat@,
            ),
        decreases s@.len() - start,
    {
        let ghost cur = s@.subrange(start as int, s@.len() as int);
        if matches_at(s, pat, start) {
            assert(start + pat@.len() <= s@.len());
            assert(cur.subrange(0, pat@.len() as int) =~= s@.subrange(
                start as int,
                start + pat@.len(),
            ));
            assert(cur.subrange(pat@.len() as int, cur.len() as int) =~= s@.subrange(
                start + pat@.len(),
                s@.len() as int,
            ));
            start = start + pat.len();
        } else {
            proof {
                if starts_with(cur, pat@) {
                    assert(cur.subrange(0, pat@.len() as int) =~= s@.subrange(
                        start as int,
                        start + pat@.len(),
                    ));
                }
            }
            return start;
        }
    }
}

/// The first index at which `pat` occurs in `s`.
pub fn find_in(s: &Vec<char>, pat: &Vec<char>) -> (res: Option<usize>)
    ensures
        res matches Some(i) ==> find(s@, pat@) == Some(i as int),
        res is None ==> find(s@, pat@) is None,
{
    if pat.len() > s.len() {
        return None;
    }
    if pat.len() == 0 {
        assert(s@.subrange(0, 0) =~= pat@);
        return Some(0);
    }
    let last: usize = s.len() - pat.len();
    let mut i: usize = 0;
    while i <= last
        invariant
            last == s@.len() - pat@.len(),
            pat@.len() > 0,
            s@.len() <= usize::MAX,
            i <= last + 1,
            find(s@, pat@) == find_from(s@, pat@, i as int),
        decreases last + 1 - i,
    {
        if matches_at(s, pat, i) {
            return Some(i);
        }
        i += 1;
    }
    None
}

/// The last index below `end` at which `s` holds `c`.
pub fn rfind_char_in(s: &Vec<char>, c: char, end: usize) -> (res: Option<usize>)
    requires
        end <= s@.len(),
    ensures
        res matches Some(i) ==> rfind_char_before(s@, c, end as int) == Some(i as int),
        res is None ==> rfind_char_before(s@, c, end as int) is None,
{
    let mut e: usize = end;
    while e > 0
        invariant
            e <= end <= s@.len(),
            rfind_char_before(s@, c, end as int) == rfind_char_before(s@, c, e as int),
        decreases e,
    {
        if s[e - 1] == c {
            return Some(e - 1);
        }
        e -= 1;
    }
    None
}

/// Whether `pat` occurs in `s`.
pub fn str_contains(s: &str, pat: &str) -> (res: bool)
    ensures
        res == contains(s@, pat@),
{
    let sv = chars_of(s);
    let pv = chars_of(pat);
    find_in(&sv, &pv).is_some()
}

/// `s` with every leading occurrence of `pat` removed.
pub fn str_trim_start_matches(s: &str, pat: &str) -> (r: String)
    ensures
        r@ == trim_start_matches(s@, pat@),
{
    let sv = chars_of(s);
    let pv = chars_of(pat);
    let start = trim_start_pos(&sv, &pv);
    string_of_range(&sv, start, sv.len())
}

} // verus!

verus! {

/// The texts of a sequence of string slices.
pub open spec fn strs_view(s: Seq<&'static str>) -> Seq<Seq<char>> {
    s.map_values(|x: &'static str| x@)
}

/// The texts of a sequence of strings.
pub open spec fn strings_view(s: Seq<String>) -> Seq<Seq<char>> {
    s.map_values(|x: String| x@)
}

/// Appends a copy of `s` to `args`.
pub fn push_arg(args: &mut Vec<String>, s: &str)
    ensures
        strings_view(final(args)@) == strings_view(old(args)@).push(s@),
{
    args.push(owned(s));
    assert(strings_view(args@) =~= strings_view(old(args)@).push(s@));
}

/// Appends a copy of each of `items` to `args`.
pub fn push_args(args: &mut Vec<String>, items: &Vec<&'static str>)
    ensures
        strings_view(final(args)@) == strings_view(old(args)@) + strs_view(items@),
{
    let ghost start = strings_view(args@);
    let mut i: usize = 0;
    assert(strs_view(items@.subrange(0, 0)) =~= Seq::<Seq<char>>::empty());
    assert(strings_view(args@) =~= start + strs_view(items@.subrange(0, 0)));
    while i < items.len()
        invariant
            i <= items@.len(),
            strings_view(args@) == start + strs_view(items@.subrange(0, i as int)),
        decreases items@.len() - i,
    {
        push_arg(args, items[i]);
        i += 1;
        assert(strs_view(items@.subrange(0, i as int)) =~= strs_view(
            items@.subrange(0, i - 1),
        ).push(items@[i - 1]@));
        assert(strings_view(args@) =~= start + strs_view(items@.subrange(0, i as int)));
    }
    assert(items@.subrange(0, items@.len() as int) =~= items@);
}

} // verus!
