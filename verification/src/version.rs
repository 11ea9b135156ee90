//! Semantic versions.
//!
//! The version record stores a version as a string of the shape
//! `major.minor.patch`. Migration is gated on the target version being
//! strictly ahead of the stored one, so the string is parsed into its three
//! numeric components and compared componentwise.

use vstd::prelude::*;
use vstd::string::StrSliceExecFns;

verus! {

/// A parsed semantic version: three numeric components.
#[derive(Debug, Clone, Copy, PartialEq, Eq, Structural)]
pub struct SemVer {
    pub major: u64,
    pub minor: u64,
    pub patch: u64,
}

/// A decimal digit.
pub open spec fn is_digit(c: char) -> bool {
    '0' <= c && c <= '9'
}

/// A non-empty run of decimal digits.
pub open spec fn is_digits(s: Seq<char>) -> bool {
    s.len() > 0 && forall|i: int| 0 <= i < s.len() ==> is_digit(s[i])
}

/// The numeric value of a digit string, most significant digit first.
pub open spec fn dec_val(s: Seq<char>) -> int
    decreases s.len(),
{
    if s.len() == 0 {
        0
    } else {
        dec_val(s.drop_last()) * 10 + (s.last() as int - '0' as int)
    }
}

/// The first position of a dot at or after `from`, or the length if none.
pub open spec fn dot_pos(s: Seq<char>, from: int) -> int
    decreases s.len() - from,
{
    if from >= s.len() || from < 0 {
        s.len() as int
    } else if s[from] == '.' {
        from
    } else {
        dot_pos(s, from + 1)
    }
}

/// What a version string denotes: `Some` exactly for strings of the shape
/// `major.minor.patch`, three non-empty digit runs whose values fit in `u64`,
/// separated by exactly two dots.
pub open spec fn spec_parse_version(s: Seq<char>) -> Option<SemVer> {
    let i = dot_pos(s, 0);
    let j = dot_pos(s, i + 1);
    let k = dot_pos(s, j + 1);
    let ma = s.subrange(0, i);
    let mi = s.subrange(i + 1, j);
    let pa = s.subrange(j + 1, s.len() as int);
    if i < s.len() && j < s.len() && k == s.len() && is_digits(ma) && is_digits(mi) && is_digits(
        pa,
    ) && dec_val(ma) <= u64::MAX && dec_val(mi) <= u64::MAX && dec_val(pa) <= u64::MAX {
        Some(
            SemVer {
                major: dec_val(ma) as u64,
                minor: dec_val(mi) as u64,
                patch: dec_val(pa) as u64,
            },
        )
    } else {
        None
    }
}

/// Componentwise strict order on versions.
pub open spec fn spec_version_lt(a: SemVer, b: SemVer) -> bool {
    a.major < b.major || (a.major == b.major && (a.minor < b.minor || (a.minor == b.minor
        && a.patch < b.patch)))
}

/// Whether `a` is strictly ahead of nothing but behind `b`.
pub fn version_lt(a: &SemVer, b: &SemVer) -> (r: bool)
    ensures
        r == spec_version_lt(*a, *b),
{
    a.major < b.major || (a.major == b.major && (a.minor < b.minor || (a.minor == b.minor
        && a.patch < b.patch)))
}

/// The value of a digit string never shrinks when digits are appended.
proof fn lemma_dec_val_bounds(s: Seq<char>)
    requires
        forall|i: int| 0 <= i < s.len() ==> is_digit(s[i]),
    ensures
        dec_val(s) >= 0,
        forall|m: int| 0 <= m <= s.len() ==> dec_val(s.subrange(0, m)) <= dec_val(s),
    decreases s.len(),
{
    if s.len() == 0 {
        assert forall|m: int| 0 <= m <= s.len() implies dec_val(s.subrange(0, m)) <= dec_val(s) by {
            assert(s.subrange(0, m) =~= s);
        }
    } else {
        lemma_dec_val_bounds(s.drop_last());
        assert(dec_val(s) >= dec_val(s.drop_last())) by {
            assert(s.last() as int - '0' as int >= 0);
        }
        assert forall|m: int| 0 <= m <= s.len() implies dec_val(s.subrange(0, m)) <= dec_val(s) by {
            if m == s.len() {
                assert(s.subrange(0, m) =~= s);
            } else {
                assert(s.subrange(0, m) =~= s.drop_last().subrange(0, m));
            }
        }
    }
}

/// If no dot stands in `[from, upto)` and `upto` is a dot or the end, the
/// first dot at or after `from` is at `upto`.
proof fn lemma_dot_pos(s: Seq<char>, from: int, upto: int)
    requires
        0 <= from <= upto <= s.len(),
        forall|j: int| from <= j < upto ==> s[j] != '.',
        upto == s.len() || s[upto] == '.',
    ensures
        dot_pos(s, from) == upto,
    decreases upto - from,
{
    if from < upto {
        lemma_dot_pos(s, from + 1, upto);
    }
}

/// Scans for the first dot at or after `from`.
fn find_dot(s: &str, from: usize) -> (r: usize)
    requires
        from <= s@.len(),
    ensures
        r == dot_pos(s@, from as int),
        from <= r <= s@.len(),
        r < s@.len() ==> s@[r as int] == '.',
{
    let n = s.unicode_len();
    let mut i: usize = from;
    while i < n && s.get_char(i) != '.'
        invariant
            from <= i <= n,
            n == s@.len(),
            forall|j: int| from <= j < i ==> s@[j] != '.',
        decreases n - i,
    {
        i += 1;
    }
    proof {
        lemma_dot_pos(s@, from as int, i as int);
    }
    i
}

/// Parses the digit run `s[lo..hi]`; `None` when it is empty, holds a
/// non-digit, or denotes a value over `u64::MAX`.
fn parse_decimal(s: &str, lo: usize, hi: usize) -> (r: Option<u64>)
    requires
        lo <= hi <= s@.len(),
    ensures
        ({
            let seg = s@.subrange(lo as int, hi as int);
            match r {
                Some(v) => is_digits(seg) && dec_val(seg) == v,
                None => !(is_digits(seg) && dec_val(seg) <= u64::MAX),
            }
        }),
{
    let ghost seg = s@.subrange(lo as int, hi as int);
    if lo == hi {
        return None;
    }
    let mut acc: u64 = 0;
    let mut p: usize = lo;
    while p < hi
        invariant
            lo <= p <= hi <= s@.len(),
            seg == s@.subrange(lo as int, hi as int),
            forall|j: int| 0 <= j < p - lo ==> is_digit(seg[j]),
            acc == dec_val(seg.subrange(0, p - lo)),
        decreases hi - p,
    {
        let c = s.get_char(p);
        if !('0' <= c && c <= '9') {
            proof {
                assert(seg[p - lo] == c);
            }
            return None;
        }
        let d: u64 = (c as u32 - '0' as u32) as u64;
        if acc > (u64::MAX - d) / 10 {
            proof {
                assert(acc * 10 + d > u64::MAX) by (nonlinear_arith)
                    requires
                        acc > (u64::MAX - d) / 10,
                        d <= 9,
                        acc >= 0,
                ;
                assert(seg.subrange(0, p + 1 - lo).drop_last() =~= seg.subrange(0, p - lo));
                assert(seg.subrange(0, p + 1 - lo).last() == c);
                assert(dec_val(seg.subrange(0, p + 1 - lo)) > u64::MAX);
                assert(forall|j: int| 0 <= j < p + 1 - lo ==> is_digit(seg[j]));
                if is_digits(seg) {
                    lemma_dec_val_bounds(seg);
                    assert(dec_val(seg.subrange(0, p + 1 - lo)) <= dec_val(seg));
                }
            }
            return None;
        }
        proof {
            assert(acc * 10 + d <= u64::MAX) by (nonlinear_arith)
                requires
                    acc <= (u64::MAX - d) / 10,
                    d <= 9,
                    acc >= 0,
            ;
            assert(seg.subrange(0, p + 1 - lo).drop_last() =~= seg.subrange(0, p - lo));
            assert(seg.subrange(0, p + 1 - lo).last() == c);
        }
        acc = acc * 10 + d;
        p += 1;
    }
    proof {
        assert(seg.subrange(0, (hi - lo) as int) =~= seg);
    }
    Some(acc)
}

/// Parses a `major.minor.patch` version string.
pub fn parse_version(s: &str) -> (r: Option<SemVer>)
    ensures
        r == spec_parse_version(s@),
{
    let n = s.unicode_len();
    let i = find_dot(s, 0);
    if i == n {
        return None;
    }
    let j = find_dot(s, i + 1);
    if j == n {
        return None;
    }
    let k = find_dot(s, j + 1);
    if k != n {
        return None;
    }
    let major = parse_decimal(s, 0, i);
    let minor = parse_decimal(s, i + 1, j);
    let patch = parse_decimal(s, j + 1, n);
    match (major, minor, patch) {
        (Some(ma), Some(mi), Some(pa)) => Some(SemVer { major: ma, minor: mi, patch: pa }),
        _ => None,
    }
}

} // verus!
