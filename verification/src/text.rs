//! Character-level text utilities shared by the diagnostic stages:
//! equality, substring search and whitespace trimming, each specified
//! over the `Seq<char>` view of the text.

use vstd::prelude::*;
use vstd::string::StrSliceExecFns;
use vstd::string::StringExecFns;

verus! {

/// The needle occurs in the haystack starting at position `i`.
pub open spec fn contains_at(hay: Seq<char>, needle: Seq<char>, i: int) -> bool {
    0 <= i && i + needle.len() <= hay.len() && hay.subrange(i, i + needle.len()) == needle
}

/// The needle occurs somewhere in the haystack.
pub open spec fn contains_seq(hay: Seq<char>, needle: Seq<char>) -> bool {
    exists|i: int| contains_at(hay, needle, i)
}

/// Characters treated as whitespace when trimming console and command
/// output text (the ASCII whitespace characters).
pub open spec fn is_space(c: char) -> bool {
    c == ' ' || c == '\t' || c == '\n' || c == '\r' || c == '\u{b}' || c == '\u{c}'
}

/// Number of leading whitespace characters of `s`.
pub open spec fn leading_spaces(s: Seq<char>) -> nat
    decreases s.len(),
{
    if s.len() == 0 || !is_space(s[0]) {
        0
    } else {
        1 + leading_spaces(s.drop_first())
    }
}

/// Number of trailing whitespace characters of `s`.
pub open spec fn trailing_spaces(s: Seq<char>) -> nat
    decreases s.len(),
{
    if s.len() == 0 || !is_space(s[s.len() - 1]) {
        0
    } else {
        1 + trailing_spaces(s.drop_last())
    }
}

/// `s` with leading and trailing whitespace removed.
pub open spec fn trim_seq(s: Seq<char>) -> Seq<char> {
    let start = leading_spaces(s);
    if start == s.len() {
        Seq::empty()
    } else {
        s.subrange(start as int, s.len() - trailing_spaces(s))
    }
}

/// Exact character-for-character equality of two strings.
pub fn str_eq(a: &str, b: &str) -> (r: bool)
    ensures
        r == (a@ == b@),
{
    let an = a.unicode_len();
    let bn = b.unicode_len();
    if an != bn {
        return false;
    }
    let mut i: usize = 0;
    while i < an
        invariant
            i <= an,
            an == a@.len(),
            an == b@.len(),
            forall|j: int| 0 <= j < i ==> a@[j] == b@[j],
        decreases an - i,
    {
        let ca = a.get_char(i);
        let cb = b.get_char(i);
        if ca != cb {
            return false;
        }
        i += 1;
    }
    proof {
        assert(a@ =~= b@);
    }
    true
}

/// Whether the needle occurs at position `i` of the haystack.
fn matches_at(hay: &str, needle: &str, i: usize) -> (r: bool)
    requires
        i + needle@.len() <= hay@.len(),
    ensures
        r == contains_at(hay@, needle@, i as int),
{
    let hn = hay.unicode_len();
    let nn = needle.unicode_len();
    let mut j: usize = 0;
    while j < nn
        invariant
            j <= nn,
            nn == needle@.len(),
            hn == hay@.len(),
            i + nn <= hn,
            forall|k: int| 0 <= k < j ==> hay@[i + k] == needle@[k],
        decreases nn - j,
    {
        let ch = hay.get_char(i + j);
        let cn = needle.get_char(j);
        if ch != cn {
            proof {
                assert(hay@.subrange(i as int, i + needle@.len())[j as int] != needle@[j as int]);
            }
            return false;
        }
        j += 1;
    }
    proof {
        assert(hay@.subrange(i as int, i + needle@.len()) =~= needle@);
    }
    true
}

/// Substring search: whether `needle` occurs anywhere in `hay`.
pub fn contains_sub(hay: &str, needle: &str) -> (r: bool)
    ensures
        r == contains_seq(hay@, needle@),
{
    let hn = hay.unicode_len();
    let nn = needle.unicode_len();
    if nn > hn {
        proof {
            assert forall|k: int| !contains_at(hay@, needle@, k) by {
                if contains_at(hay@, needle@, k) {
                    assert(k + needle@.len() <= hay@.len());
                }
            }
        }
        return false;
    }
    if nn == 0 {
        proof {
            assert(hay@.subrange(0, 0) =~= needle@);
            assert(contains_at(hay@, needle@, 0));
        }
        return true;
    }
    let bound = hn - nn;
    let mut i: usize = 0;
    while i <= bound
        invariant
            1 <= nn <= hn,
            hn == hay@.len(),
            nn == needle@.len(),
            bound == hn - nn,
            i <= bound + 1,
            forall|k: int| 0 <= k < i ==> !contains_at(hay@, needle@, k),
        decreases bound + 1 - i,
    {
        if matches_at(hay, needle, i) {
            return true;
        }
        i += 1;
    }
    proof {
        assert forall|k: int| !contains_at(hay@, needle@, k) by {
            if contains_at(hay@, needle@, k) {
                assert(0 <= k && k + needle@.len() <= hay@.len());
            }
        }
    }
    false
}

/// Executable counterpart of `is_space`.
pub fn is_space_char(c: char) -> (r: bool)
    ensures
        r == is_space(c),
{
    c == ' ' || c == '\t' || c == '\n' || c == '\r' || c == '\u{b}' || c == '\u{c}'
}

/// `s` with leading and trailing whitespace removed.
pub fn trim<'a>(s: &'a str) -> (r: &'a str)
    ensures
        r@ == trim_seq(s@),
{
    let n = s.unicode_len();
    let mut start: usize = 0;
    while start < n && is_space_char(s.get_char(start))
        invariant
            start <= n,
            n == s@.len(),
            forall|j: int| 0 <= j < start ==> is_space(s@[j]),
        decreases n - start,
    {
        start += 1;
    }
    proof {
        lemma_leading_spaces_stop(s@, start as int);
    }
    if start == n {
        let r = s.substring_char(n, n);
        proof {
            assert(r@ =~= trim_seq(s@));
        }
        return r;
    }
    let mut end: usize = n;
    while end > start && is_space_char(s.get_char(end - 1))
        invariant
            start < end <= n,
            n == s@.len(),
            start < n,
            !is_space(s@[start as int]),
            forall|j: int| end <= j < n ==> is_space(s@[j]),
        decreases end,
    {
        end -= 1;
    }
    proof {
        lemma_trailing_spaces_stop(s@, end as int);
        assert(s@.subrange(start as int, end as int) =~= trim_seq(s@));
    }
    s.substring_char(start, end)
}

/// Index of the first occurrence of `c` in `s`, or `s.len()` when `c`
/// does not occur.
pub open spec fn find_idx(s: Seq<char>, c: char) -> nat
    decreases s.len(),
{
    if s.len() == 0 {
        0
    } else if s[0] == c {
        0
    } else {
        1 + find_idx(s.drop_first(), c)
    }
}

/// `find_idx` is the position `k` with no occurrence before it and either
/// an occurrence at it or the end of the string.
pub proof fn lemma_find_idx_is(s: Seq<char>, c: char, k: int)
    requires
        0 <= k <= s.len(),
        forall|j: int| 0 <= j < k ==> s[j] != c,
        k < s.len() ==> s[k] == c,
    ensures
        find_idx(s, c) == k,
    decreases k,
{
    if k > 0 {
        lemma_find_idx_is(s.drop_first(), c, k - 1);
    }
}

/// Index of the first occurrence of `c` in `s`, or the length of `s` when
/// `c` does not occur.
pub fn find_char(s: &str, c: char) -> (r: usize)
    ensures
        r == find_idx(s@, c),
        r <= s@.len(),
        forall|j: int| 0 <= j < r ==> s@[j] != c,
        r < s@.len() ==> s@[r as int] == c,
{
    let n = s.unicode_len();
    let mut i: usize = 0;
    while i < n && s.get_char(i) != c
        invariant
            i <= n,
            n == s@.len(),
            forall|j: int| 0 <= j < i ==> s@[j] != c,
        decreases n - i,
    {
        i += 1;
    }
    proof {
        lemma_find_idx_is(s@, c, i as int);
    }
    i
}

/// `s` split on every occurrence of `sep`.  Splitting the empty string
/// gives one empty piece, as `str::split` does.
pub open spec fn split_on(s: Seq<char>, sep: char) -> Seq<Seq<char>>
    decreases s.len(),
{
    let i = find_idx(s, sep) as int;
    if i >= s.len() {
        seq![s]
    } else {
        seq![s.take(i)] + split_on(s.skip(i + 1), sep)
    }
}

/// Split `s` on every occurrence of `sep`.
pub fn split_char(s: &str, sep: char) -> (r: Vec<String>)
    ensures
        r.deep_view() == split_on(s@, sep),
    decreases s@.len(),
{
    let n = s.unicode_len();
    let i = find_char(s, sep);
    if i == n {
        let mut v: Vec<String> = Vec::new();
        v.push(String::from_str(s));
        proof {
            assert(v.deep_view() =~= split_on(s@, sep));
        }
        v
    } else {
        let head = s.substring_char(0, i);
        let tail = s.substring_char(i + 1, n);
        proof {
            assert(tail@ =~= s@.skip(i + 1));
        }
        let mut rest = split_char(tail, sep);
        rest.insert(0, String::from_str(head));
        proof {
            assert(head@ =~= s@.take(i as int));
            assert(rest.deep_view() =~= split_on(s@, sep));
        }
        rest
    }
}

/// Split command output into its lines.
pub fn split_lines(s: &str) -> (r: Vec<String>)
    ensures
        r.deep_view() == split_on(s@, '\n'),
{
    split_char(s, '\n')
}

/// The pieces joined with `sep` between consecutive pieces.
pub open spec fn join_with(parts: Seq<Seq<char>>, sep: Seq<char>) -> Seq<char>
    decreases parts.len(),
{
    if parts.len() == 0 {
        Seq::empty()
    } else if parts.len() == 1 {
        parts[0]
    } else {
        join_with(parts.drop_last(), sep) + sep + parts.last()
    }
}

/// Join the pieces with `sep` between consecutive pieces.
pub fn join(parts: &Vec<String>, sep: &str) -> (r: String)
    ensures
        r@ == join_with(parts.deep_view(), sep@),
{
    let n = parts.len();
    let mut acc = String::new();
    let mut i: usize = 0;
    while i < n
        invariant
            i <= n,
            n == parts.len(),
            acc@ == join_with(parts.deep_view().take(i as int), sep@),
        decreases n - i,
    {
        if i > 0 {
            acc.append(sep);
        }
        acc.append(parts[i].as_str());
        proof {
            let pre = parts.deep_view().take(i + 1);
            assert(pre.drop_last() =~= parts.deep_view().take(i as int));
            assert(pre.last() == parts.deep_view()[i as int]);
            assert(parts.deep_view()[i as int] == parts@[i as int]@);
            if i == 0 {
                assert(acc@ =~= join_with(pre, sep@));
            }
        }
        i += 1;
    }
    proof {
        assert(parts.deep_view().take(n as int) =~= parts.deep_view());
    }
    acc
}

/// If the first `k` characters are whitespace and either the string ends
/// there or `s[k]` is not whitespace, the leading run is exactly `k`.
proof fn lemma_leading_spaces_stop(s: Seq<char>, k: int)
    requires
        0 <= k <= s.len(),
        forall|j: int| 0 <= j < k ==> is_space(s[j]),
        k < s.len() ==> !is_space(s[k]),
    ensures
        leading_spaces(s) == k,
    decreases k,
{
    if k > 0 {
        lemma_leading_spaces_stop(s.drop_first(), k - 1);
    }
}

/// If every character from `e` on is whitespace and either `e` is zero or
/// `s[e - 1]` is not whitespace, the trailing run is exactly `len - e`.
proof fn lemma_trailing_spaces_stop(s: Seq<char>, e: int)
    requires
        0 <= e <= s.len(),
        forall|j: int| e <= j < s.len() ==> is_space(s[j]),
        e > 0 ==> !is_space(s[e - 1]),
    ensures
        trailing_spaces(s) == s.len() - e,
    decreases s.len() - e,
{
    if e < s.len() {
        if e > 0 {
            assert(s.drop_last()[e - 1] == s[e - 1]);
        }
        lemma_trailing_spaces_stop(s.drop_last(), e);
    }
}

} // verus!
