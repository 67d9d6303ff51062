//! Document-name rules: the file name a document is stored under, and the
//! document name recovered from a stored file name.

use vstd::prelude::*;
use vstd::string::StringExecFns;

use crate::text::{chars_of, string_from_chars};

verus! {

/// `s` ends with the markdown suffix ".md".
pub open spec fn ends_with_md(s: Seq<char>) -> bool {
    s.len() >= 3 && s.subrange(s.len() - 3, s.len() as int) == ".md"@
}

/// `s` with every trailing repetition of ".md" removed, as
/// `str::trim_end_matches` removes them.
pub open spec fn strip_md(s: Seq<char>) -> Seq<char>
    decreases s.len(),
{
    if ends_with_md(s) {
        strip_md(s.take(s.len() - 3))
    } else {
        s
    }
}

/// The file name a document named `name` is stored under.
pub fn md_file_name(name: &str) -> (r: String)
    ensures
        r@ == name@ + ".md"@,
{
    let mut s = String::from_str(name);
    s.append(".md");
    s
}

fn has_md_suffix(cs: &Vec<char>, end: usize) -> (r: bool)
    requires
        end <= cs@.len(),
    ensures
        r == ends_with_md(cs@.take(end as int)),
{
    proof {
        reveal_strlit(".md");
    }
    if end < 3 {
        return false;
    }
    let r = cs[end - 3] == '.' && cs[end - 2] == 'm' && cs[end - 1] == 'd';
    proof {
        let t = cs@.take(end as int);
        if r {
            assert(t.subrange(end - 3, end as int) =~= ".md"@);
        } else {
            if t.subrange(end - 3, end as int) == ".md"@ {
                assert(t.subrange(end - 3, end as int)[0] == cs@[end - 3]);
                assert(t.subrange(end - 3, end as int)[1] == cs@[end - 2]);
                assert(t.subrange(end - 3, end as int)[2] == cs@[end - 1]);
            }
        }
    }
    r
}

/// The document name a stored file name stands for: `Some` exactly when the
/// file name carries the markdown suffix, holding the name with every
/// trailing ".md" removed.
pub fn md_stem(file_name: &str) -> (r: Option<String>)
    ensures
        ends_with_md(file_name@) == (r is Some),
        r matches Some(stem) ==> stem@ == strip_md(file_name@),
{
    let cs = chars_of(file_name);
    let n = cs.len();
    proof {
        assert(cs@.take(n as int) =~= cs@);
    }
    if !has_md_suffix(&cs, n) {
        return None;
    }
    let mut end: usize = n;
    let mut scanning = true;
    while scanning
        invariant
            end <= n,
            n == cs@.len(),
            strip_md(cs@) == strip_md(cs@.take(end as int)),
            !scanning ==> !ends_with_md(cs@.take(end as int)),
        decreases end + (if scanning { 1int } else { 0int }),
    {
        if has_md_suffix(&cs, end) {
            proof {
                let t = cs@.take(end as int);
                assert(t.take(t.len() - 3) =~= cs@.take(end - 3));
            }
            end = end - 3;
        } else {
            scanning = false;
        }
    }
    let mut stem: Vec<char> = Vec::new();
    let mut k: usize = 0;
    while k < end
        invariant
            k <= end <= n,
            n == cs@.len(),
            stem@ =~= cs@.take(k as int),
        decreases end - k,
    {
        stem.push(cs[k]);
        proof {
            assert(stem@ =~= cs@.take(k as int + 1));
        }
        k = k + 1;
    }
    Some(string_from_chars(&stem))
}

} // verus!
