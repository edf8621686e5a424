//! Slash-separated paths as text: whether one is absolute, its parent, and joining.
use vstd::prelude::*;

verus! {

pub open spec fn is_absolute(p: Seq<char>) -> bool {
    p.len() > 0 && p[0] == '/'
}

/// The position of the last `/` in `p`, or -1 where there is none.
pub open spec fn last_slash(p: Seq<char>) -> int
    decreases p.len(),
{
    if p.len() == 0 {
        -1
    } else if p.last() == '/' {
        p.len() - 1
    } else {
        last_slash(p.drop_last())
    }
}

/// The directory that holds `p`: the text before its last `/` (the root where that
/// slash is the first character, the empty path where there is no slash). The
/// empty path and the root have none.
pub open spec fn parent_of(p: Seq<char>) -> Option<Seq<char>> {
    if p.len() == 0 || p == seq!['/'] {
        None
    } else {
        let j = last_slash(p);
        if j < 0 {
            Some(Seq::empty())
        } else if j == 0 {
            Some(seq!['/'])
        } else {
            Some(p.subrange(0, j))
        }
    }
}

/// `p` taken relative to `base`: `p` itself where it is absolute or `base` is empty,
/// else `base` and `p` with one `/` between them.
pub open spec fn join_path(base: Seq<char>, p: Seq<char>) -> Seq<char> {
    if is_absolute(p) || base.len() == 0 {
        p
    } else if base.last() == '/' {
        base + p
    } else {
        base + seq!['/'] + p
    }
}

pub fn is_absolute_path(p: &str) -> (r: bool)
    ensures
        r == is_absolute(p@),
{
    p.unicode_len() > 0 && p.get_char(0) == '/'
}

pub fn parent(p: &str) -> (r: Option<String>)
    ensures
        match parent_of(p@) {
            Some(q) => r is Some && r->0@ == q,
            None => r is None,
        },
{
    let n = p.unicode_len();
    if n == 0 || (n == 1 && p.get_char(0) == '/') {
        proof {
            if n == 1 {
                assert(p@ =~= seq!['/']);
            }
        }
        return None;
    }
    assert(p@ != seq!['/']) by {
        if p@ == seq!['/'] {
            assert(p@[0] == '/');
        }
    }
    let mut k: usize = n;
    assert(p@.subrange(0, n as int) =~= p@);
    while k > 0 && p.get_char(k - 1) != '/'
        invariant
            k <= n == p@.len(),
            last_slash(p@) == last_slash(p@.subrange(0, k as int)),
        decreases k,
    {
        assert(p@.subrange(0, k - 1) =~= p@.subrange(0, k as int).drop_last());
        k = k - 1;
    }
    proof {
        assert(p@.subrange(0, n as int) =~= p@);
        if k > 0 {
            assert(p@.subrange(0, k as int).last() == '/');
        }
    }
    if k == 0 {
        assert(p@.subrange(0, 0) =~= Seq::<char>::empty());
        Some(String::new())
    } else if k == 1 {
        proof {
            reveal_strlit("/");
        }
        Some("/".to_string())
    } else {
        Some(p.substring_char(0, k - 1).to_owned())
    }
}

pub fn join(base: &str, p: &str) -> (r: String)
    ensures
        r@ == join_path(base@, p@),
{
    let n = base.unicode_len();
    if is_absolute_path(p) || n == 0 {
        p.to_owned()
    } else if base.get_char(n - 1) == '/' {
        base.to_owned().concat(p)
    } else {
        proof {
            reveal_strlit("/");
        }
        base.to_owned().concat("/").concat(p)
    }
}

} // verus!
