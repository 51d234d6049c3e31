//! The version comparator: parses a dotted kernel release string
//! (possibly carrying a platform suffix after a hyphen) into its three
//! numeric components and compares the triple against a minimum
//! threshold, lexicographically and inclusively.

use vstd::prelude::*;
use vstd::string::StrSliceExecFns;

use crate::errors::StageError;
use crate::text::find_char;
use crate::text::find_idx;
use crate::text::lemma_find_idx_is;

verus! {

/// A decimal digit.
pub open spec fn is_digit(c: char) -> bool {
    '0' <= c && c <= '9'
}

/// Numeric value of a decimal digit.
pub open spec fn digit_val(c: char) -> int {
    c as int - '0' as int
}

pub open spec fn all_digits(s: Seq<char>) -> bool {
    forall|i: int| 0 <= i < s.len() ==> is_digit(s[i])
}

/// Value of a digit string read in base ten.
pub open spec fn digits_val(s: Seq<char>) -> int
    decreases s.len(),
{
    if s.len() == 0 {
        0
    } else {
        digits_val(s.drop_last()) * 10 + digit_val(s.last())
    }
}

/// What a numeric version component parses to: defined exactly on
/// non-empty all-digit strings whose value fits in `u32`.
pub open spec fn num_of(s: Seq<char>) -> Option<u32> {
    if s.len() > 0 && all_digits(s) && digits_val(s) <= u32::MAX {
        Some(digits_val(s) as u32)
    } else {
        None
    }
}

/// The numeric prefix of a release string: everything before the first
/// hyphen (the whole string when there is none).
pub open spec fn version_core(s: Seq<char>) -> Seq<char> {
    s.take(find_idx(s, '-') as int)
}

/// The first three dot-separated fields of the numeric prefix, when at
/// least three exist.  A fourth field and beyond are ignored.
pub open spec fn version_fields(s: Seq<char>) -> Option<(Seq<char>, Seq<char>, Seq<char>)> {
    let core = version_core(s);
    let i = find_idx(core, '.') as int;
    if i == core.len() {
        None
    } else {
        let rest = core.skip(i + 1);
        let j = find_idx(rest, '.') as int;
        if j == rest.len() {
            None
        } else {
            let tail = rest.skip(j + 1);
            let k = find_idx(tail, '.') as int;
            Some((core.take(i), rest.take(j), tail.take(k)))
        }
    }
}

/// What a release string parses to: its (major, minor, patch) triple,
/// or nothing when it has no three parseable components.
pub open spec fn version_of(s: Seq<char>) -> Option<(u32, u32, u32)> {
    match version_fields(s) {
        Some(f) => match (num_of(f.0), num_of(f.1), num_of(f.2)) {
            (Some(a), Some(b), Some(c)) => Some((a, b, c)),
            _ => None,
        },
        None => None,
    }
}

/// Lexicographic order on version triples, the sense in which a version
/// meets a minimum threshold (inclusive).
pub open spec fn lex_ge(v: (u32, u32, u32), t: (u32, u32, u32)) -> bool {
    v.0 > t.0 || (v.0 == t.0 && (v.1 > t.1 || (v.1 == t.1 && v.2 >= t.2)))
}

/// The minimum kernel version the deployment tooling needs.
pub open spec fn min_kernel_version() -> (u32, u32, u32) {
    (5u32, 17u32, 0u32)
}

/// A digit string is worth at least any of its prefixes.
proof fn lemma_digits_prefix_le(s: Seq<char>, m: int)
    requires
        all_digits(s),
        0 <= m <= s.len(),
    ensures
        digits_val(s.take(m)) <= digits_val(s),
    decreases s.len(),
{
    lemma_digits_val_nonneg(s);
    if m < s.len() {
        assert(s.drop_last().take(m) =~= s.take(m));
        assert(all_digits(s.drop_last())) by {
            assert(forall|i: int|
                0 <= i < s.len() - 1 ==> s.drop_last()[i] == s[i] && is_digit(s[i]));
        }
        lemma_digits_prefix_le(s.drop_last(), m);
        lemma_digits_val_nonneg(s.drop_last());
        assert(is_digit(s.last()));
        assert(digit_val(s.last()) >= 0);
        assert(digits_val(s.drop_last()) * 10 >= digits_val(s.drop_last()));
        assert(digits_val(s) >= digits_val(s.drop_last()));
    } else {
        assert(s.take(m) =~= s);
    }
}

proof fn lemma_digits_val_nonneg(s: Seq<char>)
    requires
        all_digits(s),
    ensures
        digits_val(s) >= 0,
    decreases s.len(),
{
    if s.len() > 0 {
        assert(all_digits(s.drop_last())) by {
            assert(forall|i: int|
                0 <= i < s.len() - 1 ==> s.drop_last()[i] == s[i] && is_digit(s[i]));
        }
        lemma_digits_val_nonneg(s.drop_last());
        assert(is_digit(s.last()));
    }
}

/// Value of `c` as a decimal digit, or nothing when `c` is no digit.
fn digit_of(c: char) -> (r: Option<u32>)
    ensures
        r is Some <==> is_digit(c),
        r matches Some(d) ==> d == digit_val(c),
{
    if c == '0' {
        Some(0)
    } else if c == '1' {
        Some(1)
    } else if c == '2' {
        Some(2)
    } else if c == '3' {
        Some(3)
    } else if c == '4' {
        Some(4)
    } else if c == '5' {
        Some(5)
    } else if c == '6' {
        Some(6)
    } else if c == '7' {
        Some(7)
    } else if c == '8' {
        Some(8)
    } else if c == '9' {
        Some(9)
    } else {
        None
    }
}

/// Parse a non-empty all-digit string as a `u32`.
pub fn parse_num(s: &str) -> (r: Option<u32>)
    ensures
        r == num_of(s@),
{
    let n = s.unicode_len();
    if n == 0 {
        return None;
    }
    let mut acc: u64 = 0;
    let mut i: usize = 0;
    while i < n
        invariant
            0 < n == s@.len(),
            i <= n,
            forall|j: int| 0 <= j < i ==> is_digit(s@[j]),
            acc == digits_val(s@.take(i as int)),
            acc <= u32::MAX,
        decreases n - i,
    {
        let c = s.get_char(i);
        let d = match digit_of(c) {
            Some(d) => d,
            None => {
                return None;
            },
        };
        let next: u64 = acc * 10 + (d as u64);
        proof {
            assert(s@.take(i + 1).drop_last() =~= s@.take(i as int));
            assert(s@.take(i + 1).last() == s@[i as int]);
            assert(next == digits_val(s@.take(i + 1)));
        }
        if next > (u32::MAX as u64) {
            proof {
                if all_digits(s@) {
                    lemma_digits_prefix_le(s@, i + 1);
                }
            }
            return None;
        }
        acc = next;
        i += 1;
    }
    proof {
        assert(s@.take(n as int) =~= s@);
    }
    Some(acc as u32)
}

/// Parse a release string into its (major, minor, patch) triple.
pub fn parse_version(s: &str) -> (r: Option<(u32, u32, u32)>)
    ensures
        r == version_of(s@),
{
    let core_end = find_char(s, '-');
    let core = s.substring_char(0, core_end);
    proof {
        assert(core@ =~= version_core(s@));
    }
    let cn = core.unicode_len();
    let i = find_char(core, '.');
    if i == cn {
        return None;
    }
    let rest = core.substring_char(i + 1, cn);
    proof {
        assert(rest@ =~= version_core(s@).skip(i + 1));
    }
    let rn = rest.unicode_len();
    let j = find_char(rest, '.');
    if j == rn {
        return None;
    }
    let tail = rest.substring_char(j + 1, rn);
    proof {
        assert(tail@ =~= rest@.skip(j + 1));
    }
    let k = find_char(tail, '.');
    let f1 = core.substring_char(0, i);
    let f2 = rest.substring_char(0, j);
    let f3 = tail.substring_char(0, k);
    proof {
        assert(f1@ =~= version_core(s@).take(i as int));
        assert(f2@ =~= rest@.take(j as int));
        assert(f3@ =~= tail@.take(k as int));
    }
    let a = match parse_num(f1) {
        Some(a) => a,
        None => {
            return None;
        },
    };
    let b = match parse_num(f2) {
        Some(b) => b,
        None => {
            return None;
        },
    };
    let c = match parse_num(f3) {
        Some(c) => c,
        None => {
            return None;
        },
    };
    Some((a, b, c))
}

/// Whether version triple `v` meets the minimum threshold `t`:
/// compatible exactly when `v` is lexicographically at least `t`, the
/// bound itself included.
pub fn version_compatible(v: (u32, u32, u32), t: (u32, u32, u32)) -> (r: bool)
    ensures
        r == lex_ge(v, t),
{
    if v.0 != t.0 {
        v.0 > t.0
    } else if v.1 != t.1 {
        v.1 > t.1
    } else {
        v.2 >= t.2
    }
}

/// The kernel-version stage: succeeds exactly when the release string's
/// triple meets the minimum kernel version, and fails with
/// `IncompatibleKernelVersion` carrying that minimum otherwise.
pub fn check_kernel_version(version: &str) -> (r: Result<(), StageError>)
    requires
        version_of(version@) is Some,
    ensures
        r is Ok <==> lex_ge(version_of(version@)->Some_0, min_kernel_version()),
        r matches Err(e) ==> e matches StageError::IncompatibleKernelVersion { minimum }
            && minimum == min_kernel_version(),
{
    let v = match parse_version(version) {
        Some(v) => v,
        None => {
            return Err(StageError::IncompatibleKernelVersion { minimum: (5, 17, 0) });
        },
    };
    if version_compatible(v, (5, 17, 0)) {
        Ok(())
    } else {
        Err(StageError::IncompatibleKernelVersion { minimum: (5, 17, 0) })
    }
}

/// A platform suffix introduced by a hyphen never affects what a release
/// string parses to: for any hyphen-free version text and any suffix,
/// parsing the suffixed string gives the same result as parsing the bare
/// version text.
pub proof fn lemma_suffix_irrelevant(v: Seq<char>, suffix: Seq<char>)
    requires
        forall|i: int| 0 <= i < v.len() ==> v[i] != '-',
    ensures
        version_of(v.push('-') + suffix) == version_of(v),
{
    let s = v.push('-') + suffix;
    assert forall|j: int| 0 <= j < v.len() implies s[j] != '-' by {
        assert(s[j] == v[j]);
    }
    assert(s[v.len() as int] == '-');
    lemma_find_idx_is(s, '-', v.len() as int);
    lemma_find_idx_is(v, '-', v.len() as int);
    assert(version_core(s) =~= v);
    assert(version_core(v) =~= v);
}

} // verus!
