//! Verified text utilities: white-space classification, substring search,
//! trimming and placeholder replacement over `Seq<char>` views.

use vstd::prelude::*;

verus! {

use vstd::string::StrSliceExecFns;
use vstd::string::StringExecFns;

/// The Unicode `White_Space` characters.
pub open spec fn is_space_char(c: char) -> bool {
    c == ' ' || c == '\t' || c == '\n' || c == '\r' || c == '\u{b}' || c == '\u{c}' || c
        == '\u{85}' || c == '\u{a0}' || c == '\u{1680}' || c == '\u{2000}' || c == '\u{2001}' || c
        == '\u{2002}' || c == '\u{2003}' || c == '\u{2004}' || c == '\u{2005}' || c == '\u{2006}'
        || c == '\u{2007}' || c == '\u{2008}' || c == '\u{2009}' || c == '\u{200a}' || c
        == '\u{2028}' || c == '\u{2029}' || c == '\u{202f}' || c == '\u{205f}' || c == '\u{3000}'
}

pub fn is_space(c: char) -> (r: bool)
    ensures
        r == is_space_char(c),
{
    c == ' ' || c == '\t' || c == '\n' || c == '\r' || c == '\u{b}' || c == '\u{c}' || c
        == '\u{85}' || c == '\u{a0}' || c == '\u{1680}' || c == '\u{2000}' || c == '\u{2001}' || c
        == '\u{2002}' || c == '\u{2003}' || c == '\u{2004}' || c == '\u{2005}' || c == '\u{2006}'
        || c == '\u{2007}' || c == '\u{2008}' || c == '\u{2009}' || c == '\u{200a}' || c
        == '\u{2028}' || c == '\u{2029}' || c == '\u{202f}' || c == '\u{205f}' || c == '\u{3000}'
}

/// `pat` occurs in `s` starting at position `i`.
pub open spec fn match_at(s: Seq<char>, pat: Seq<char>, i: int) -> bool {
    0 <= i && i + pat.len() <= s.len() && s.subrange(i, i + pat.len() as int) == pat
}

/// The first position at or after `from` where `pat` occurs in `s`.
pub open spec fn find_from_spec(s: Seq<char>, pat: Seq<char>, from: int) -> Option<int>
    decreases s.len() - from + 1,
{
    if from < 0 || from + pat.len() > s.len() {
        None
    } else if match_at(s, pat, from) {
        Some(from)
    } else {
        find_from_spec(s, pat, from + 1)
    }
}

pub proof fn lemma_find_some(s: Seq<char>, pat: Seq<char>, from: int)
    ensures
        match find_from_spec(s, pat, from) {
            Some(i) => from <= i && match_at(s, pat, i),
            None => true,
        },
    decreases s.len() - from + 1,
{
    if from < 0 || from + pat.len() > s.len() {
    } else if match_at(s, pat, from) {
    } else {
        lemma_find_some(s, pat, from + 1);
    }
}

/// Searching `s` from `from` agrees with searching the suffix of `s` that
/// starts at `pos`, shifted by `pos`.
pub proof fn lemma_find_suffix(s: Seq<char>, pat: Seq<char>, pos: int, from: int)
    requires
        0 <= pos <= from,
        pos <= s.len(),
    ensures
        match find_from_spec(s, pat, from) {
            Some(i) => find_from_spec(s.subrange(pos, s.len() as int), pat, from - pos) == Some(
                i - pos,
            ),
            None => find_from_spec(s.subrange(pos, s.len() as int), pat, from - pos) is None,
        },
    decreases s.len() - from + 1,
{
    let suf = s.subrange(pos, s.len() as int);
    if from + pat.len() <= s.len() {
        assert(s.subrange(from, from + pat.len() as int) =~= suf.subrange(
            from - pos,
            from - pos + pat.len() as int,
        ));
        if match_at(s, pat, from) {
            assert(match_at(suf, pat, from - pos));
        } else {
            assert(!match_at(suf, pat, from - pos));
            lemma_find_suffix(s, pat, pos, from + 1);
        }
    }
}

/// The first occurrence of `pat` in `s` at or after `from`.
pub fn find_str(s: &str, pat: &str, from: usize) -> (r: Option<usize>)
    requires
        from <= s@.len(),
    ensures
        match r {
            Some(i) => find_from_spec(s@, pat@, from as int) == Some(i as int),
            None => find_from_spec(s@, pat@, from as int) is None,
        },
{
    let n = s.unicode_len();
    let m = pat.unicode_len();
    let mut i = from;
    loop
        invariant
            from <= i <= n,
            n == s@.len(),
            m == pat@.len(),
            find_from_spec(s@, pat@, from as int) == find_from_spec(s@, pat@, i as int),
        decreases n - i,
    {
        if m > n - i {
            assert(find_from_spec(s@, pat@, i as int) is None);
            return None;
        }
        let mut j: usize = 0;
        let mut matched = true;
        while matched && j < m
            invariant
                0 <= j <= m,
                i + m <= n,
                n == s@.len(),
                m == pat@.len(),
                m == 0 ==> matched,
                matched ==> forall|k: int| 0 <= k < j ==> s@[i + k] == pat@[k],
                !matched ==> !match_at(s@, pat@, i as int),
            decreases m - j + (if matched {
                1int
            } else {
                0int
            }),
        {
            if s.get_char(i + j) != pat.get_char(j) {
                proof {
                    if match_at(s@, pat@, i as int) {
                        assert(s@.subrange(i as int, i + m)[j as int] == pat@[j as int]);
                    }
                }
                matched = false;
            } else {
                j += 1;
            }
        }
        if matched {
            assert(s@.subrange(i as int, i + m) =~= pat@);
            assert(find_from_spec(s@, pat@, i as int) == Some(i as int));
            return Some(i);
        }
        assert(find_from_spec(s@, pat@, i as int) == find_from_spec(s@, pat@, i + 1));
        i += 1;
    }
}

/// The index of the first character of `s` at or after `i` that is not
/// white space.
pub open spec fn trim_start_idx(s: Seq<char>, i: int) -> int
    decreases s.len() - i,
{
    if 0 <= i < s.len() && is_space_char(s[i]) {
        trim_start_idx(s, i + 1)
    } else {
        i
    }
}

/// The index just past the last character of `s[lo..j]` that is not white
/// space.
pub open spec fn trim_end_idx(s: Seq<char>, j: int, lo: int) -> int
    decreases j - lo,
{
    if 0 <= lo && lo < j <= s.len() && is_space_char(s[j - 1]) {
        trim_end_idx(s, j - 1, lo)
    } else {
        j
    }
}

/// `s` with leading and trailing white space removed.
pub open spec fn trim_spec(s: Seq<char>) -> Seq<char> {
    let a = trim_start_idx(s, 0);
    let b = trim_end_idx(s, s.len() as int, a);
    if 0 <= a <= b <= s.len() {
        s.subrange(a, b)
    } else {
        Seq::empty()
    }
}

pub fn trim_str<'a>(s: &'a str) -> (r: &'a str)
    ensures
        r@ == trim_spec(s@),
{
    let n = s.unicode_len();
    let mut a: usize = 0;
    while a < n && is_space(s.get_char(a))
        invariant
            0 <= a <= n,
            n == s@.len(),
            trim_start_idx(s@, 0) == trim_start_idx(s@, a as int),
        decreases n - a,
    {
        a += 1;
    }
    assert(trim_start_idx(s@, a as int) == a as int);
    let mut b: usize = n;
    while b > a && is_space(s.get_char(b - 1))
        invariant
            a <= b <= n,
            n == s@.len(),
            trim_end_idx(s@, n as int, a as int) == trim_end_idx(s@, b as int, a as int),
        decreases b,
    {
        b -= 1;
    }
    assert(trim_end_idx(s@, b as int, a as int) == b as int);
    s.substring_char(a, b)
}

/// `s` with every occurrence of `pat` replaced by `val`, scanning from the
/// left; the replacement text itself is not rescanned.
pub open spec fn replace_spec(s: Seq<char>, pat: Seq<char>, val: Seq<char>) -> Seq<char>
    decreases s.len(),
    via replace_spec_decreases
{
    if pat.len() == 0 {
        s
    } else {
        match find_from_spec(s, pat, 0) {
            None => s,
            Some(i) => s.subrange(0, i) + val + replace_spec(
                s.subrange(i + pat.len() as int, s.len() as int),
                pat,
                val,
            ),
        }
    }
}

#[via_fn]
proof fn replace_spec_decreases(s: Seq<char>, pat: Seq<char>, val: Seq<char>) {
    if pat.len() > 0 {
        lemma_find_some(s, pat, 0);
    }
}

pub fn replace_str(s: &str, pat: &str, val: &str) -> (r: String)
    requires
        pat@.len() >= 1,
    ensures
        r@ == replace_spec(s@, pat@, val@),
{
    let n = s.unicode_len();
    let m = pat.unicode_len();
    let mut out = String::new();
    let mut pos: usize = 0;
    proof {
        assert(s@.subrange(0, n as int) =~= s@);
        assert(Seq::<char>::empty() + replace_spec(s@, pat@, val@) =~= replace_spec(
            s@,
            pat@,
            val@,
        ));
    }
    loop
        invariant
            0 <= pos <= n,
            n == s@.len(),
            m == pat@.len(),
            m >= 1,
            replace_spec(s@, pat@, val@) == out@ + replace_spec(
                s@.subrange(pos as int, n as int),
                pat@,
                val@,
            ),
        decreases n - pos,
    {
        let found = find_str(s, pat, pos);
        proof {
            lemma_find_suffix(s@, pat@, pos as int, pos as int);
            lemma_find_some(s@, pat@, pos as int);
        }
        match found {
            None => {
                let tail = s.substring_char(pos, n);
                out.append(tail);
                proof {
                    let suf = s@.subrange(pos as int, n as int);
                    assert(replace_spec(suf, pat@, val@) == suf);
                }
                return out;
            },
            Some(i) => {
                let ghost prev = out@;
                proof {
                    let suf = s@.subrange(pos as int, n as int);
                    assert(replace_spec(suf, pat@, val@) == suf.subrange(0, i - pos) + val@
                        + replace_spec(
                        suf.subrange(i - pos + pat@.len() as int, suf.len() as int),
                        pat@,
                        val@,
                    ));
                    assert(suf.subrange(0, i - pos) =~= s@.subrange(pos as int, i as int));
                    assert(suf.subrange(i - pos + pat@.len() as int, suf.len() as int) =~= s@
                        .subrange(i + m, n as int));
                }
                let ghost pos0 = pos as int;
                let head = s.substring_char(pos, i);
                out.append(head);
                out.append(val);
                pos = i + m;
                proof {
                    let headv = s@.subrange(pos0, i as int);
                    let rest = replace_spec(s@.subrange(pos as int, n as int), pat@, val@);
                    assert(out@ == prev + headv + val@);
                    assert(prev + (headv + val@ + rest) =~= (prev + headv + val@) + rest);
                }
            },
        }
    }
}

/// Character-by-character string equality.
pub fn str_eq(a: &str, b: &str) -> (r: bool)
    ensures
        r == (a@ == b@),
{
    let n = a.unicode_len();
    if n != b.unicode_len() {
        proof {
            assert(a@.len() != b@.len());
        }
        return false;
    }
    let mut i: usize = 0;
    while i < n
        invariant
            0 <= i <= n,
            n == a@.len(),
            n == b@.len(),
            forall|k: int| 0 <= k < i ==> a@[k] == b@[k],
        decreases n - i,
    {
        if a.get_char(i) != b.get_char(i) {
            return false;
        }
        i += 1;
    }
    proof {
        assert(a@ =~= b@);
    }
    true
}

/// The concatenation of `a` and `b` as a fresh `String`.
pub fn concat_str(a: &str, b: &str) -> (r: String)
    ensures
        r@ == a@ + b@,
{
    let mut out = String::from_str(a);
    out.append(b);
    out
}

} // verus!
