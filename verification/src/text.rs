//! Character-level text utilities: conversion between strings and character
//! vectors, whitespace trimming, substring search, line splitting, and the
//! case-folding wrapper the heuristic transformer relies on.

use vstd::prelude::*;
use vstd::string::StrSliceExecFns;

verus! {

/// Characters counted as whitespace when a line is trimmed: the Unicode
/// `White_Space` set, as `char::is_whitespace` recognises it.
pub open spec fn is_space(c: char) -> bool {
    ||| c == '\u{0009}'
    ||| c == '\u{000A}'
    ||| c == '\u{000B}'
    ||| c == '\u{000C}'
    ||| c == '\u{000D}'
    ||| c == ' '
    ||| c == '\u{0085}'
    ||| c == '\u{00A0}'
    ||| c == '\u{1680}'
    ||| c == '\u{2000}'
    ||| c == '\u{2001}'
    ||| c == '\u{2002}'
    ||| c == '\u{2003}'
    ||| c == '\u{2004}'
    ||| c == '\u{2005}'
    ||| c == '\u{2006}'
    ||| c == '\u{2007}'
    ||| c == '\u{2008}'
    ||| c == '\u{2009}'
    ||| c == '\u{200A}'
    ||| c == '\u{2028}'
    ||| c == '\u{2029}'
    ||| c == '\u{202F}'
    ||| c == '\u{205F}'
    ||| c == '\u{3000}'
}

/// Whether `c` is one of the whitespace characters the trimming rule removes.
pub fn is_space_char(c: char) -> (r: bool)
    ensures
        r == is_space(c),
{
    c == '\u{0009}' || c == '\u{000A}' || c == '\u{000B}' || c == '\u{000C}' || c == '\u{000D}'
        || c == ' ' || c == '\u{0085}' || c == '\u{00A0}' || c == '\u{1680}' || c == '\u{2000}'
        || c == '\u{2001}' || c == '\u{2002}' || c == '\u{2003}' || c == '\u{2004}'
        || c == '\u{2005}' || c == '\u{2006}' || c == '\u{2007}' || c == '\u{2008}'
        || c == '\u{2009}' || c == '\u{200A}' || c == '\u{2028}' || c == '\u{2029}'
        || c == '\u{202F}' || c == '\u{205F}' || c == '\u{3000}'
}

/// The characters of a string, in order.
pub fn chars_of(s: &str) -> (r: Vec<char>)
    ensures
        r@ == s@,
{
    let n: usize = s.unicode_len();
    let mut r: Vec<char> = Vec::new();
    let mut i: usize = 0;
    while i < n
        invariant
            n == s@.len(),
            i <= n,
            r@ =~= s@.take(i as int),
        decreases n - i,
    {
        let c = s.get_char(i);
        r.push(c);
        proof {
            assert(r@ =~= s@.take(i as int + 1));
        }
        i = i + 1;
    }
    proof {
        assert(r@ =~= s@);
    }
    r
}

/// Relies on `String: FromIterator<char>`: collecting characters yields the
/// string of exactly those characters in order.
#[verifier::external_body]
pub(crate) fn string_from_chars(v: &Vec<char>) -> (r: String)
    ensures
        r@ == v@,
{
    v.iter().collect()
}

/// The lowercased form of a character sequence; what `str::to_lowercase`
/// returns for the string of these characters.
pub uninterp spec fn lower_of(s: Seq<char>) -> Seq<char>;

/// Relies on `str::to_lowercase`: the result depends on the characters alone.
#[verifier::external_body]
pub(crate) fn lower_chars(v: &Vec<char>) -> (r: Vec<char>)
    ensures
        r@ == lower_of(v@),
{
    v.iter().collect::<String>().to_lowercase().chars().collect()
}

/// `needle` occurs in `hay` starting at offset `i`.
pub open spec fn match_at(hay: Seq<char>, needle: Seq<char>, i: int) -> bool {
    &&& 0 <= i
    &&& i + needle.len() <= hay.len()
    &&& hay.subrange(i, i + needle.len()) == needle
}

/// `needle` occurs somewhere in `hay`.
pub open spec fn contains_seq(hay: Seq<char>, needle: Seq<char>) -> bool {
    exists|i: int| match_at(hay, needle, i)
}

fn match_here(hay: &Vec<char>, needle: &Vec<char>, i: usize) -> (r: bool)
    requires
        i + needle@.len() <= hay@.len(),
    ensures
        r == match_at(hay@, needle@, i as int),
{
    let hl = hay.len();
    let nl = needle.len();
    let mut j: usize = 0;
    while j < nl
        invariant
            i + nl <= hl,
            hl == hay@.len(),
            nl == needle@.len(),
            j <= nl,
            forall|m: int| 0 <= m < j ==> hay@[i + m] == needle@[m],
        decreases nl - j,
    {
        if hay[i + j] != needle[j] {
            proof {
                assert(!match_at(hay@, needle@, i as int)) by {
                    if hay@.subrange(i as int, i + nl) == needle@ {
                        assert(hay@.subrange(i as int, i + nl)[j as int] == hay@[i + j]);
                    }
                }
            }
            return false;
        }
        j = j + 1;
    }
    proof {
        assert(hay@.subrange(i as int, i + nl as int) =~= needle@);
    }
    true
}

/// Substring search: whether the characters of `needle` occur contiguously
/// in `hay`; what `str::contains` decides for the matching strings.
pub fn contains_chars(hay: &Vec<char>, needle: &Vec<char>) -> (r: bool)
    ensures
        r == contains_seq(hay@, needle@),
{
    let hl = hay.len();
    let nl = needle.len();
    if nl > hl {
        proof {
            assert forall|i: int| !match_at(hay@, needle@, i) by {}
        }
        return false;
    }
    if nl == 0 {
        proof {
            assert(match_at(hay@, needle@, 0)) by {
                assert(hay@.subrange(0, 0) =~= needle@);
            }
        }
        return true;
    }
    let bound = hl - nl;
    let mut i: usize = 0;
    while i <= bound
        invariant
            1 <= nl <= hl,
            bound == hl - nl,
            hl == hay@.len(),
            nl == needle@.len(),
            i <= bound + 1,
            forall|k: int| 0 <= k < i ==> !match_at(hay@, needle@, k),
        decreases bound - i + 1,
    {
        if match_here(hay, needle, i) {
            return true;
        }
        i = i + 1;
    }
    proof {
        assert forall|k: int| !match_at(hay@, needle@, k) by {
            if 0 <= k < i as int {
                assert(!match_at(hay@, needle@, k));
            }
        }
    }
    false
}

/// What is left of `s` once leading whitespace is removed.
pub open spec fn trim_start_spec(s: Seq<char>) -> Seq<char>
    decreases s.len(),
{
    if s.len() > 0 && is_space(s[0]) {
        trim_start_spec(s.skip(1))
    } else {
        s
    }
}

/// What is left of `s` once trailing whitespace is removed.
pub open spec fn trim_end_spec(s: Seq<char>) -> Seq<char>
    decreases s.len(),
{
    if s.len() > 0 && is_space(s[s.len() - 1]) {
        trim_end_spec(s.take(s.len() - 1))
    } else {
        s
    }
}

/// What `str::trim` leaves of `s`: no leading or trailing whitespace.
pub open spec fn trim_spec(s: Seq<char>) -> Seq<char> {
    trim_end_spec(trim_start_spec(s))
}

proof fn lemma_trim_start_prefix(s: Seq<char>, i: int)
    requires
        0 <= i <= s.len(),
        forall|m: int| 0 <= m < i ==> is_space(s[m]),
        i == s.len() || !is_space(s[i]),
    ensures
        trim_start_spec(s) == s.skip(i),
    decreases i,
{
    if i == 0 {
        assert(s.skip(0) =~= s);
    } else {
        assert(is_space(s[0]));
        lemma_trim_start_prefix(s.skip(1), i - 1);
        assert(s.skip(1).skip(i - 1) =~= s.skip(i));
    }
}

proof fn lemma_trim_end_suffix(s: Seq<char>, j: int)
    requires
        0 <= j <= s.len(),
        forall|m: int| j <= m < s.len() ==> is_space(s[m]),
        j == 0 || !is_space(s[j - 1]),
    ensures
        trim_end_spec(s) == s.take(j),
    decreases s.len() - j,
{
    if j == s.len() {
        assert(s.take(j) =~= s);
    } else {
        assert(is_space(s[s.len() - 1]));
        lemma_trim_end_suffix(s.take(s.len() - 1), j);
        assert(s.take(s.len() - 1).take(j) =~= s.take(j));
    }
}

/// The characters of `v` with leading and trailing whitespace removed,
/// as `str::trim` removes it.
pub fn trim_chars(v: &Vec<char>) -> (r: Vec<char>)
    ensures
        r@ == trim_spec(v@),
{
    let n = v.len();
    let mut a: usize = 0;
    let mut scanning = true;
    while scanning
        invariant
            n == v@.len(),
            a <= n,
            forall|m: int| 0 <= m < a ==> is_space(v@[m]),
            !scanning ==> (a == n || !is_space(v@[a as int])),
        decreases n - a + (if scanning { 1int } else { 0int }),
    {
        if a < n {
            if is_space_char(v[a]) {
                a = a + 1;
            } else {
                scanning = false;
            }
        } else {
            scanning = false;
        }
    }
    let mut b: usize = n;
    scanning = true;
    while scanning
        invariant
            n == v@.len(),
            a <= b <= n,
            forall|m: int| b <= m < n ==> is_space(v@[m]),
            !scanning ==> (b == a || !is_space(v@[b - 1])),
        decreases b - a + (if scanning { 1int } else { 0int }),
    {
        if b > a {
            if is_space_char(v[b - 1]) {
                b = b - 1;
            } else {
                scanning = false;
            }
        } else {
            scanning = false;
        }
    }
    let mut r: Vec<char> = Vec::new();
    let mut k: usize = a;
    while k < b
        invariant
            a <= k <= b <= n,
            n == v@.len(),
            r@ =~= v@.subrange(a as int, k as int),
        decreases b - k,
    {
        r.push(v[k]);
        proof {
            assert(r@ =~= v@.subrange(a as int, k as int + 1));
        }
        k = k + 1;
    }
    proof {
        lemma_trim_start_prefix(v@, a as int);
        let t = v@.skip(a as int);
        assert forall|m: int| (b - a) <= m < t.len() implies is_space(t[m]) by {
            assert(t[m] == v@[a + m]);
        }
        if b > a {
            assert(t[b - a - 1] == v@[b - 1]);
        }
        lemma_trim_end_suffix(t, b - a);
        assert(t.take(b - a) =~= v@.subrange(a as int, b as int));
    }
    r
}

/// The offset of the first newline in `s`, or `s.len()` if there is none.
pub open spec fn find_nl(s: Seq<char>) -> nat
    decreases s.len(),
{
    if s.len() == 0 {
        0
    } else if s[0] == '\n' {
        0
    } else {
        (1 + find_nl(s.skip(1))) as nat
    }
}

proof fn lemma_find_nl_at(s: Seq<char>, k: int)
    requires
        0 <= k <= s.len(),
        forall|m: int| 0 <= m < k ==> s[m] != '\n',
        k == s.len() || s[k] == '\n',
    ensures
        find_nl(s) == k,
    decreases k,
{
    if k == 0 {
    } else {
        assert(s[0] != '\n');
        assert forall|m: int| 0 <= m < k - 1 implies s.skip(1)[m] != '\n' by {
            assert(s.skip(1)[m] == s[m + 1]);
        }
        if k < s.len() {
            assert(s.skip(1)[k - 1] == s[k]);
        }
        lemma_find_nl_at(s.skip(1), k - 1);
    }
}

/// A line segment with a carriage return dropped from its end, as `str::lines`
/// drops one that stood before the newline.
pub open spec fn strip_cr(s: Seq<char>) -> Seq<char> {
    if s.len() > 0 && s[s.len() - 1] == '\r' {
        s.take(s.len() - 1)
    } else {
        s
    }
}

/// The lines of `s`, as `str::lines` yields them: split at each newline, a
/// carriage return before the newline dropped, no final empty line after a
/// trailing newline, and a final segment without a newline kept as it stands.
pub open spec fn lines_spec(s: Seq<char>) -> Seq<Seq<char>>
    decreases s.len(),
{
    if s.len() == 0 {
        Seq::empty()
    } else {
        let i = find_nl(s);
        if i >= s.len() {
            seq![s]
        } else {
            seq![strip_cr(s.take(i as int))] + lines_spec(s.skip(i as int + 1))
        }
    }
}

/// The lines of the character sequence `v`, split as `str::lines` splits.
pub fn split_lines(v: &Vec<char>) -> (r: Vec<Vec<char>>)
    ensures
        r.deep_view() == lines_spec(v@),
{
    let n = v.len();
    let mut r: Vec<Vec<char>> = Vec::new();
    let mut pos: usize = 0;
    proof {
        assert(r.deep_view() =~= Seq::<Seq<char>>::empty());
        assert(v@.skip(0) =~= v@);
        assert(r.deep_view() + lines_spec(v@) =~= lines_spec(v@));
    }
    while pos < n
        invariant
            pos <= n,
            n == v@.len(),
            lines_spec(v@) == r.deep_view() + lines_spec(v@.skip(pos as int)),
        decreases n - pos,
    {
        let ghost old_r = r.deep_view();
        let mut j: usize = pos;
        let mut scanning = true;
        while scanning
            invariant
                pos <= j <= n,
                n == v@.len(),
                forall|m: int| pos <= m < j ==> v@[m] != '\n',
                !scanning ==> (j == n || v@[j as int] == '\n'),
            decreases n - j + (if scanning { 1int } else { 0int }),
        {
            if j < n {
                if v[j] != '\n' {
                    j = j + 1;
                } else {
                    scanning = false;
                }
            } else {
                scanning = false;
            }
        }
        let mut endx: usize = j;
        if j < n && endx > pos {
            if v[endx - 1] == '\r' {
                endx = endx - 1;
            }
        }
        let mut line: Vec<char> = Vec::new();
        let mut k: usize = pos;
        while k < endx
            invariant
                pos <= k <= endx <= n,
                n == v@.len(),
                line@ =~= v@.subrange(pos as int, k as int),
            decreases endx - k,
        {
            line.push(v[k]);
            proof {
                assert(line@ =~= v@.subrange(pos as int, k as int + 1));
            }
            k = k + 1;
        }
        proof {
            let s = v@.skip(pos as int);
            assert forall|m: int| 0 <= m < (j - pos) implies s[m] != '\n' by {
                assert(s[m] == v@[pos + m]);
            }
            if (j as int) < n as int {
                assert(s[j - pos] == v@[j as int]);
            }
            lemma_find_nl_at(s, j - pos);
            if j == n {
                assert(line@ =~= s);
                assert(lines_spec(s) == seq![s]);
            } else {
                let seg = s.take(j - pos);
                if endx < j {
                    assert(v@[endx as int] == '\r');
                    assert(seg[seg.len() - 1] == v@[j - 1]);
                    assert(strip_cr(seg) =~= v@.subrange(pos as int, endx as int));
                } else {
                    if seg.len() > 0 {
                        assert(seg[seg.len() - 1] == v@[j - 1]);
                    }
                    assert(strip_cr(seg) =~= v@.subrange(pos as int, endx as int));
                }
                assert(lines_spec(s) == seq![strip_cr(seg)] + lines_spec(s.skip(j - pos + 1)));
                assert(s.skip(j - pos + 1) =~= v@.skip(j as int + 1));
            }
        }
        r.push(line);
        proof {
            assert(r.deep_view() =~~= old_r.push(line@));
            if j == n {
                assert(v@.skip(n as int) =~= Seq::<char>::empty());
                assert(lines_spec(v@.skip(n as int)) == Seq::<Seq<char>>::empty());
                assert(r.deep_view() + lines_spec(v@.skip(n as int)) =~= old_r + lines_spec(
                    v@.skip(pos as int),
                ));
            } else {
                assert(r.deep_view() + lines_spec(v@.skip(j as int + 1)) =~= old_r + lines_spec(
                    v@.skip(pos as int),
                ));
            }
        }
        pos = if j < n {
            j + 1
        } else {
            n
        };
    }
    proof {
        assert(v@.skip(n as int) =~= Seq::<char>::empty());
        assert(r.deep_view() + lines_spec(v@.skip(n as int)) =~= r.deep_view());
    }
    r
}

/// The offset of the first space at or after offset `i` in `s`, or `-1`
/// if no space stands there.
pub open spec fn space_from(s: Seq<char>, i: int) -> int
    decreases s.len() - i,
{
    if i < 0 || i >= s.len() {
        -1
    } else if s[i] == ' ' {
        i
    } else {
        space_from(s, i + 1)
    }
}

pub proof fn lemma_space_from_at(s: Seq<char>, i: int, k: int)
    requires
        0 <= i <= k <= s.len(),
        forall|m: int| i <= m < k ==> s[m] != ' ',
        k == s.len() || s[k] == ' ',
    ensures
        space_from(s, i) == if k < s.len() {
            k
        } else {
            -1
        },
    decreases k - i,
{
    if i == k {
    } else {
        assert(s[i] != ' ');
        lemma_space_from_at(s, i + 1, k);
    }
}

pub proof fn lemma_space_from_props(s: Seq<char>, i: int)
    requires
        0 <= i,
    ensures
        space_from(s, i) == -1 || (i <= space_from(s, i) < s.len() && s[space_from(s, i)] == ' '),
    decreases s.len() - i,
{
    if i >= s.len() {
    } else if s[i] == ' ' {
    } else {
        lemma_space_from_props(s, i + 1);
    }
}

} // verus!
