//! The heuristic transformer: splits a review comment's text into a problem
//! statement and a fix suggestion. Lines are routed to the problem until a
//! line carries a marker word; that line and everything after it go to the
//! fix. A long problem with no fix is split near its midpoint, and empty
//! parts fall back to the whole content and to a default instruction.

use vstd::prelude::*;
use vstd::string::StringExecFns;

use crate::text::{
    chars_of, contains_chars, contains_seq, lemma_space_from_at, lines_spec, lower_chars, lower_of,
    space_from, split_lines, string_from_chars, trim_chars, trim_spec,
};

verus! {

/// A line flips routing to the fix when its lowercased form holds one of the
/// marker words meaning "suggest", "fix" or "should".
pub open spec fn is_marker_line(line: Seq<char>) -> bool {
    ||| contains_seq(lower_of(line), "建议"@)
    ||| contains_seq(lower_of(line), "fix"@)
    ||| contains_seq(lower_of(line), "should"@)
}

/// A trimmed line appended to an accumulator, joined with a single space
/// when the accumulator is not empty.
pub open spec fn join_word(acc: Seq<char>, w: Seq<char>) -> Seq<char> {
    if acc.len() == 0 {
        acc + w
    } else {
        acc + seq![' '] + w
    }
}

/// One routing step: the flag flips to false before the marker line itself is
/// routed, so that line and everything after it go to the fix.
pub open spec fn route_step(flag: bool, problem: Seq<char>, fix: Seq<char>, line: Seq<char>) -> (
    bool,
    Seq<char>,
    Seq<char>,
) {
    let f2 = flag && !is_marker_line(line);
    if f2 {
        (f2, join_word(problem, trim_spec(line)), fix)
    } else {
        (f2, problem, join_word(fix, trim_spec(line)))
    }
}

/// The routing state after the first `n` lines: the flag, the accumulated
/// problem, and the accumulated fix.
pub open spec fn route(lines: Seq<Seq<char>>, n: int) -> (bool, Seq<char>, Seq<char>)
    decreases n,
{
    if n <= 0 {
        (true, Seq::empty(), Seq::empty())
    } else {
        let st = route(lines, n - 1);
        route_step(st.0, st.1, st.2, lines[n - 1])
    }
}

/// The problem length above which an empty fix forces a midpoint split.
pub open spec fn split_threshold() -> int {
    50
}

/// Where a long problem is split: the first space at or after the character
/// midpoint, or exactly the midpoint when no space follows it.
pub open spec fn split_pos(p: Seq<char>) -> int {
    let mid = (p.len() / 2) as int;
    if space_from(p, mid) >= 0 {
        space_from(p, mid)
    } else {
        mid
    }
}

/// The default instruction substituted when no fix text was produced.
pub open spec fn default_fix() -> Seq<char> {
    "请根据上述问题检查并修复代码"@
}

/// What `parse_comment_to_rag` returns for `content`: the routed problem and
/// fix, the midpoint split applied when the fix stayed empty and the problem
/// ran long, an empty problem replaced by the whole content, and an empty fix
/// replaced by the default instruction.
pub open spec fn segment_spec(content: Seq<char>) -> (Seq<char>, Seq<char>) {
    let lns = lines_spec(content);
    let st = route(lns, lns.len() as int);
    let split = st.2.len() == 0 && st.1.len() > split_threshold();
    let p0 = if split {
        st.1.take(split_pos(st.1))
    } else {
        st.1
    };
    let f0 = if split {
        st.1.skip(split_pos(st.1))
    } else {
        st.2
    };
    let p1 = if p0.len() == 0 {
        content
    } else {
        p0
    };
    let f1 = if f0.len() == 0 {
        default_fix()
    } else {
        f0
    };
    (p1, f1)
}

/// Law: when routing leaves the fix empty and the problem longer than the
/// split threshold, the midpoint split loses and duplicates nothing — the
/// problem and fix of the result concatenate to exactly the routed problem —
/// and both parts come out non-empty.
pub proof fn lemma_midpoint_split_preserves(content: Seq<char>)
    requires
        route(lines_spec(content), lines_spec(content).len() as int).2.len() == 0,
        route(lines_spec(content), lines_spec(content).len() as int).1.len() > split_threshold(),
    ensures
        segment_spec(content).0 + segment_spec(content).1 == route(
            lines_spec(content),
            lines_spec(content).len() as int,
        ).1,
        segment_spec(content).0.len() > 0,
        segment_spec(content).1.len() > 0,
{
    let st = route(lines_spec(content), lines_spec(content).len() as int);
    let p = st.1;
    let mid = (p.len() / 2) as int;
    crate::text::lemma_space_from_props(p, mid);
    let pos = split_pos(p);
    assert(0 < pos < p.len());
    assert(p.take(pos) + p.skip(pos) =~= p);
}

/// Pushes every character of `src` onto `dst`.
pub fn append_chars(dst: &mut Vec<char>, src: &Vec<char>)
    ensures
        final(dst)@ == old(dst)@ + src@,
{
    let n = src.len();
    let mut i: usize = 0;
    while i < n
        invariant
            i <= n,
            n == src@.len(),
            dst@ =~= old(dst)@ + src@.take(i as int),
        decreases n - i,
    {
        dst.push(src[i]);
        proof {
            assert(dst@ =~= old(dst)@ + src@.take(i as int + 1));
        }
        i = i + 1;
    }
    proof {
        assert(src@.take(n as int) =~= src@);
    }
}

/// Splits a comment's text into a problem statement and a fix suggestion.
/// Total for any input: the fix is never empty, and the problem is empty
/// only for empty content.
pub fn parse_comment_to_rag(content: &str) -> (r: (String, String))
    ensures
        r.0@ == segment_spec(content@).0,
        r.1@ == segment_spec(content@).1,
        r.1@.len() > 0,
        r.0@.len() == 0 ==> content@.len() == 0,
{
    let cs = chars_of(content);
    let lines = split_lines(&cs);
    let ghost lns = lines.deep_view();
    let m1 = chars_of("建议");
    let m2 = chars_of("fix");
    let m3 = chars_of("should");
    let mut problem: Vec<char> = Vec::new();
    let mut fix: Vec<char> = Vec::new();
    let mut in_problem = true;
    let mut idx: usize = 0;
    let nlines = lines.len();
    while idx < nlines
        invariant
            lns == lines_spec(content@),
            lns == lines.deep_view(),
            nlines == lines@.len(),
            m1@ == "建议"@,
            m2@ == "fix"@,
            m3@ == "should"@,
            idx <= nlines,
            (in_problem, problem@, fix@) == route(lns, idx as int),
        decreases nlines - idx,
    {
        let line = &lines[idx];
        proof {
            assert(line@ =~= lns[idx as int]);
        }
        let lower = lower_chars(line);
        let ghost flag_before = in_problem;
        if contains_chars(&lower, &m1) || contains_chars(&lower, &m2) || contains_chars(
            &lower,
            &m3,
        ) {
            in_problem = false;
        }
        proof {
            assert(in_problem == (flag_before && !is_marker_line(lns[idx as int])));
        }
        let t = trim_chars(line);
        let ghost p_before = problem@;
        let ghost f_before = fix@;
        if in_problem {
            if problem.len() > 0 {
                problem.push(' ');
                proof {
                    assert(problem@ =~= p_before + seq![' ']);
                }
            }
            append_chars(&mut problem, &t);
            proof {
                assert(problem@ =~= join_word(p_before, trim_spec(lns[idx as int])));
            }
        } else {
            if fix.len() > 0 {
                fix.push(' ');
                proof {
                    assert(fix@ =~= f_before + seq![' ']);
                }
            }
            append_chars(&mut fix, &t);
            proof {
                assert(fix@ =~= join_word(f_before, trim_spec(lns[idx as int])));
            }
        }
        proof {
            assert((in_problem, problem@, fix@) == route(lns, idx as int + 1));
        }
        idx = idx + 1;
    }
    let ghost st = route(lns, lns.len() as int);
    proof {
        assert(st == (in_problem, problem@, fix@));
    }
    if fix.len() == 0 && problem.len() > 50 {
        let plen = problem.len();
        let mid = plen / 2;
        let mut j: usize = mid;
        let mut scanning = true;
        while scanning
            invariant
                mid <= j <= plen,
                plen == problem@.len(),
                forall|m: int| mid <= m < j ==> problem@[m] != ' ',
                !scanning ==> (j == plen || problem@[j as int] == ' '),
            decreases plen - j + (if scanning { 1int } else { 0int }),
        {
            if j < plen {
                if problem[j] != ' ' {
                    j = j + 1;
                } else {
                    scanning = false;
                }
            } else {
                scanning = false;
            }
        }
        let pos = if j < plen {
            j
        } else {
            mid
        };
        proof {
            lemma_space_from_at(problem@, mid as int, j as int);
            assert(pos as int == split_pos(problem@));
        }
        let tail = problem.split_off(pos);
        proof {
            assert(problem@ =~= st.1.take(split_pos(st.1)));
            assert(tail@ =~= st.1.skip(split_pos(st.1)));
        }
        fix = tail;
    }
    let p_str = if problem.len() == 0 {
        content.to_owned()
    } else {
        string_from_chars(&problem)
    };
    let f_str = if fix.len() == 0 {
        proof {
            reveal_strlit("请根据上述问题检查并修复代码");
        }
        String::from_str("请根据上述问题检查并修复代码")
    } else {
        string_from_chars(&fix)
    };
    (p_str, f_str)
}

} // verus!
