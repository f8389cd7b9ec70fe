//! Character-level string operations with exact contracts.
use vstd::prelude::*;
use vstd::string::*;

verus! {

/// The characters of an optional string.
pub open spec fn opt_view(s: Option<String>) -> Option<Seq<char>> {
    match s {
        Some(v) => Some(v@),
        None => None,
    }
}

/// The Unicode `White_Space` property, which `char::is_whitespace` tests.
pub open spec fn is_white_space(c: char) -> bool {
    ('\t' <= c && c <= '\r') || c == ' ' || c == '\u{85}' || c == '\u{a0}' || c == '\u{1680}'
        || ('\u{2000}' <= c && c <= '\u{200a}') || c == '\u{2028}' || c == '\u{2029}'
        || c == '\u{202f}' || c == '\u{205f}' || c == '\u{3000}'
}

/// Whether `c` is white space, as `char::is_whitespace` says.
pub fn white_space(c: char) -> (r: bool)
    ensures
        r == is_white_space(c),
{
    ('\t' <= c && c <= '\r') || c == ' ' || c == '\u{85}' || c == '\u{a0}' || c == '\u{1680}'
        || ('\u{2000}' <= c && c <= '\u{200a}') || c == '\u{2028}' || c == '\u{2029}'
        || c == '\u{202f}' || c == '\u{205f}' || c == '\u{3000}'
}

/// `s` without its trailing white space.
pub open spec fn trim_end_white(s: Seq<char>) -> Seq<char>
    decreases s.len(),
{
    if s.len() > 0 && is_white_space(s.last()) {
        trim_end_white(s.drop_last())
    } else {
        s
    }
}

/// `s` without the copies of `c` at its end.
pub open spec fn strip_trailing(s: Seq<char>, c: char) -> Seq<char>
    decreases s.len(),
{
    if s.len() > 0 && s.last() == c {
        strip_trailing(s.drop_last(), c)
    } else {
        s
    }
}

/// `s` without the copies of `c` at its start.
pub open spec fn strip_leading(s: Seq<char>, c: char) -> Seq<char>
    decreases s.len(),
{
    if s.len() > 0 && s[0] == c {
        strip_leading(s.drop_first(), c)
    } else {
        s
    }
}

/// `s` without the copies of `c` at either end.
pub open spec fn strip_both(s: Seq<char>, c: char) -> Seq<char> {
    strip_leading(strip_trailing(s, c), c)
}

/// Copy of `s` with its trailing white space removed.
pub fn trim_end_whitespace(s: &str) -> (r: String)
    ensures
        r@ == trim_end_white(s@),
{
    let mut n: usize = s.unicode_len();
    assert(s@.subrange(0, n as int) =~= s@);
    loop
        invariant
            n <= s@.len(),
            trim_end_white(s@) == trim_end_white(s@.subrange(0, n as int)),
        ensures
            n <= s@.len(),
            trim_end_white(s@) == s@.subrange(0, n as int),
        decreases n,
    {
        if n == 0 {
            break;
        }
        let c = s.get_char(n - 1);
        if !white_space(c) {
            break;
        }
        assert(s@.subrange(0, n as int).drop_last() =~= s@.subrange(0, n - 1));
        n = n - 1;
    }
    String::from_str(s.substring_char(0, n))
}

/// Position after which only copies of `c` remain in `s`.
pub(crate) fn trailing_cut(s: &str, c: char) -> (n: usize)
    ensures
        n <= s@.len(),
        strip_trailing(s@, c) == s@.subrange(0, n as int),
{
    let mut n: usize = s.unicode_len();
    assert(s@.subrange(0, n as int) =~= s@);
    loop
        invariant
            n <= s@.len(),
            strip_trailing(s@, c) == strip_trailing(s@.subrange(0, n as int), c),
        ensures
            n <= s@.len(),
            strip_trailing(s@, c) == s@.subrange(0, n as int),
        decreases n,
    {
        if n == 0 {
            break;
        }
        if s.get_char(n - 1) != c {
            break;
        }
        assert(s@.subrange(0, n as int).drop_last() =~= s@.subrange(0, n - 1));
        n = n - 1;
    }
    n
}

/// Position before which only copies of `c` stand in `s`.
fn leading_cut(s: &str, c: char) -> (i: usize)
    ensures
        i <= s@.len(),
        strip_leading(s@, c) == s@.subrange(i as int, s@.len() as int),
{
    let n: usize = s.unicode_len();
    let mut i: usize = 0;
    assert(s@.subrange(0, n as int) =~= s@);
    loop
        invariant
            i <= n,
            n == s@.len(),
            strip_leading(s@, c) == strip_leading(s@.subrange(i as int, n as int), c),
        ensures
            i <= n,
            strip_leading(s@, c) == s@.subrange(i as int, n as int),
        decreases n - i,
    {
        if i == n {
            break;
        }
        if s.get_char(i) != c {
            break;
        }
        assert(s@.subrange(i as int, n as int).drop_first() =~= s@.subrange(i + 1, n as int));
        i = i + 1;
    }
    i
}

/// Copy of `s` without the copies of `c` at either end.
pub fn trim_char(s: &str, c: char) -> (r: String)
    ensures
        r@ == strip_both(s@, c),
{
    let n = trailing_cut(s, c);
    let t = s.substring_char(0, n);
    let i = leading_cut(t, c);
    String::from_str(t.substring_char(i, t.unicode_len()))
}

/// Whether `pat` occurs in `s` at position `i`.
pub(crate) fn occurs_at(s: &str, i: usize, pat: &str) -> (r: bool)
    requires
        i + pat@.len() <= s@.len(),
    ensures
        r == (s@.subrange(i as int, i + pat@.len()) == pat@),
{
    let m: usize = pat.unicode_len();
    let n: usize = s.unicode_len();
    let mut j: usize = 0;
    while j < m
        invariant
            j <= m,
            m == pat@.len(),
            i + m <= s@.len(),
            n == s@.len(),
            forall|k: int| 0 <= k < j ==> s@[i + k] == pat@[k],
        decreases m - j,
    {
        if s.get_char(i + j) != pat.get_char(j) {
            assert(s@.subrange(i as int, i + m)[j as int] != pat@[j as int]);
            return false;
        }
        j = j + 1;
    }
    assert(s@.subrange(i as int, i + m) =~= pat@);
    true
}

} // verus!
