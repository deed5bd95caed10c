//! File paths as text, with `/` between their components.

use vstd::prelude::*;
use vstd::string::*;

verus! {

/// Whether the path `p` starts at the root.
pub open spec fn is_absolute(p: Seq<char>) -> bool {
    p.len() > 0 && p[0] == '/'
}

/// The path `p` as seen from the directory `base`: `p` itself where it is
/// absolute; else `base` and `p` with one `/` between them, unless `base` is
/// empty or ends in `/` already.
pub open spec fn joined(base: Seq<char>, p: Seq<char>) -> Seq<char> {
    if is_absolute(p) {
        p
    } else if base.len() == 0 || base.last() == '/' {
        base + p
    } else {
        base + seq!['/'] + p
    }
}

/// Two relative paths that differ still differ below one directory.
pub proof fn lemma_joined_injective(base: Seq<char>, p: Seq<char>, q: Seq<char>)
    requires
        !is_absolute(p),
        !is_absolute(q),
        joined(base, p) == joined(base, q),
    ensures
        p == q,
{
    let front = if base.len() == 0 || base.last() == '/' {
        base
    } else {
        base + seq!['/']
    };
    assert(joined(base, p) =~= front + p);
    assert(joined(base, q) =~= front + q);
    assert(p.len() == q.len()) by {
        assert((front + p).len() == (front + q).len());
    }
    assert forall|i: int| 0 <= i < p.len() implies p[i] == q[i] by {
        assert((front + p)[front.len() + i] == p[i]);
        assert((front + q)[front.len() + i] == q[i]);
    }
    assert(p =~= q);
}

/// Joins the path `p` to the directory `base`.
pub fn join(base: &str, p: &str) -> (r: String)
    ensures
        r@ == joined(base@, p@),
{
    let base_len: usize = base.unicode_len();
    if p.unicode_len() > 0 && p.get_char(0) == '/' {
        return p.to_owned();
    }
    let mut r: String = base.to_owned();
    if base_len > 0 && base.get_char(base_len - 1) != '/' {
        proof {
            reveal_strlit("/");
        }
        assert("/"@ =~= seq!['/']);
        r.append("/");
    }
    r.append(p);
    r
}

} // verus!
