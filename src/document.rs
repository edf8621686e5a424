//! A parsed structured document and the dotted key paths that address its values.
use vstd::prelude::*;

verus! {

/// A node of a parsed structured document: scalars, sequences and mappings.
#[derive(Debug, PartialEq, Eq)]
pub enum Node {
    Null,
    Bool(bool),
    Int(i64),
    /// A floating-point scalar, kept as the text it was written with.
    Real(String),
    Str(String),
    Sequence(Vec<Node>),
    /// The entries of a mapping in the order they were written.
    Mapping(Vec<(Node, Node)>),
    /// Anything else the parser produced (an alias, an invalid value).
    Other,
}

/// The segments of a key path: the text between the dots, empty segments included.
pub open spec fn split_dots(s: Seq<char>) -> Seq<Seq<char>>
    decreases s.len(),
{
    if s.len() == 0 {
        seq![Seq::empty()]
    } else {
        let rest = split_dots(s.drop_last());
        if s.last() == '.' {
            rest.push(Seq::empty())
        } else {
            rest.update(rest.len() - 1, rest.last().push(s.last()))
        }
    }
}

pub open spec fn is_digit(c: char) -> bool {
    '0' <= c && c <= '9'
}

pub open spec fn digit_value(c: char) -> nat {
    ((c as u32) - ('0' as u32)) as nat
}

/// The number that a string of decimal digits denotes.
pub open spec fn digits_value(s: Seq<char>) -> nat
    decreases s.len(),
{
    if s.len() == 0 {
        0
    } else {
        digits_value(s.drop_last()) * 10 + digit_value(s.last())
    }
}

/// The digits of a segment, without the one leading `+` that it may carry.
pub open spec fn unsigned_digits(s: Seq<char>) -> Seq<char> {
    if s.len() > 0 && s[0] == '+' {
        s.drop_first()
    } else {
        s
    }
}

/// A segment read as a position: an optional `+` and at least one decimal digit,
/// denoting a number that fits in `usize`.
pub open spec fn parse_index(s: Seq<char>) -> Option<nat> {
    parse_digits(unsigned_digits(s))
}

pub open spec fn all_digits(d: Seq<char>) -> bool {
    forall|i: int| 0 <= i < d.len() ==> is_digit(#[trigger] d[i])
}

/// A non-empty string of decimal digits whose value fits in `usize`, read as a number.
pub open spec fn parse_digits(d: Seq<char>) -> Option<nat> {
    if d.len() > 0 && all_digits(d) && digits_value(d) <= usize::MAX {
        Some(digits_value(d))
    } else {
        None
    }
}

/// The `i64` that a position becomes when it is used as an integer mapping key
/// (positions past `i64::MAX` wrap around).
pub open spec fn index_as_key(i: nat) -> int {
    if i <= i64::MAX {
        i as int
    } else {
        i - 0x1_0000_0000_0000_0000
    }
}

/// Whether a mapping key is the given string.
pub open spec fn key_is_str(k: Node, s: Seq<char>) -> bool {
    match k {
        Node::Str(t) => t@ == s,
        _ => false,
    }
}

/// Whether a mapping key is the integer that a position denotes.
pub open spec fn key_is_index(k: Node, i: nat) -> bool {
    match k {
        Node::Int(n) => n as int == index_as_key(i),
        _ => false,
    }
}

/// The value of the first entry whose key is the string `s`.
pub open spec fn lookup_str(entries: Seq<(Node, Node)>, s: Seq<char>) -> Option<Node>
    decreases entries.len(),
{
    if entries.len() == 0 {
        None
    } else if key_is_str(entries[0].0, s) {
        Some(entries[0].1)
    } else {
        lookup_str(entries.drop_first(), s)
    }
}

/// The value of the first entry whose key is the integer `i`.
pub open spec fn lookup_index(entries: Seq<(Node, Node)>, i: nat) -> Option<Node>
    decreases entries.len(),
{
    if entries.len() == 0 {
        None
    } else if key_is_index(entries[0].0, i) {
        Some(entries[0].1)
    } else {
        lookup_index(entries.drop_first(), i)
    }
}

/// One step of a key path: a segment that reads as a position indexes a sequence
/// by position, or a mapping by integer key; any other segment indexes a mapping
/// by string key.
pub open spec fn step(n: Node, seg: Seq<char>) -> Option<Node> {
    match parse_index(seg) {
        Some(i) => match n {
            Node::Sequence(v) => if i < v@.len() {
                Some(v@[i as int])
            } else {
                None
            },
            Node::Mapping(m) => lookup_index(m@, i),
            _ => None,
        },
        None => match n {
            Node::Mapping(m) => lookup_str(m@, seg),
            _ => None,
        },
    }
}

/// The node that a sequence of segments leads to from `n`, if every step resolves.
pub open spec fn walk(n: Node, segs: Seq<Seq<char>>) -> Option<Node>
    decreases segs.len(),
{
    if segs.len() == 0 {
        Some(n)
    } else {
        match step(n, segs[0]) {
            Some(c) => walk(c, segs.drop_first()),
            None => None,
        }
    }
}

/// The string that a dotted key path leads to from `n`: `None` where a step fails
/// or the node reached is not a string scalar.
pub open spec fn resolve(n: Node, key: Seq<char>) -> Option<Seq<char>> {
    match walk(n, split_dots(key)) {
        Some(Node::Str(s)) => Some(s@),
        _ => None,
    }
}

/// Splits a key path at every dot.
pub fn split_key(key: &str) -> (r: Vec<String>)
    ensures
        r@.len() == split_dots(key@).len(),
        forall|i: int| 0 <= i < r@.len() ==> #[trigger] r@[i]@ == split_dots(key@)[i],
{
    let n = key.unicode_len();
    let mut segs: Vec<String> = Vec::new();
    let mut start: usize = 0;
    let mut i: usize = 0;
    while i < n
        invariant
            n == key@.len(),
            start <= i <= n,
            split_dots(key@.subrange(0, i as int)).len() == segs@.len() + 1,
            forall|j: int| 0 <= j < segs@.len() ==> #[trigger] segs@[j]@ == split_dots(key@.subrange(0, i as int))[j],
            split_dots(key@.subrange(0, i as int)).last() == key@.subrange(start as int, i as int),
        decreases n - i,
    {
        let c = key.get_char(i);
        let ghost pre = key@.subrange(0, i as int);
        let ghost next = key@.subrange(0, i + 1);
        assert(next.drop_last() =~= pre);
        if c == '.' {
            let seg = key.substring_char(start, i).to_owned();
            segs.push(seg);
            start = i + 1;
            assert(key@.subrange(start as int, i + 1) =~= Seq::<char>::empty());
        } else {
            assert(key@.subrange(start as int, i + 1) =~= key@.subrange(start as int, i as int).push(c));
        }
        i = i + 1;
    }
    assert(key@.subrange(0, n as int) =~= key@);
    let last = key.substring_char(start, n).to_owned();
    segs.push(last);
    segs
}

/// Reads a segment as a position, as an unsigned decimal number with an optional `+`.
pub fn parse_segment(seg: &str) -> (r: Option<usize>)
    ensures
        match parse_index(seg@) {
            Some(i) => r is Some && r->0 as nat == i,
            None => r is None,
        },
{
    let n = seg.unicode_len();
    let mut i: usize = 0;
    if n > 0 && seg.get_char(0) == '+' {
        i = 1;
    }
    let ghost d = unsigned_digits(seg@);
    assert(d =~= seg@.subrange(i as int, n as int));
    if i == n {
        assert(d.len() == 0);
        return None;
    }
    let mut acc: usize = 0;
    let mut overflow = false;
    let mut k: usize = i;
    while k < n
        invariant
            i <= k <= n,
            n == seg@.len(),
            d == unsigned_digits(seg@),
            d =~= seg@.subrange(i as int, n as int),
            forall|j: int| 0 <= j < k - i ==> is_digit(#[trigger] d[j]),
            !overflow ==> acc as nat == digits_value(d.subrange(0, k - i)),
            overflow ==> digits_value(d.subrange(0, k - i)) > usize::MAX,
        decreases n - k,
    {
        let c = seg.get_char(k);
        if !('0' <= c && c <= '9') {
            assert(!is_digit(d[k - i]));
            assert(!all_digits(d));
            return None;
        }
        let dv: usize = ((c as u32) - ('0' as u32)) as usize;
        let ghost pre = d.subrange(0, k - i);
        assert(d.subrange(0, k - i + 1).drop_last() =~= pre);
        assert(digits_value(d.subrange(0, k - i + 1)) == digits_value(pre) * 10 + dv);
        if !overflow {
            if acc > (usize::MAX - dv) / 10 {
                overflow = true;
                assert(acc * 10 + dv > usize::MAX) by (nonlinear_arith)
                    requires acc > (usize::MAX - dv) / 10, dv <= 9;
            } else {
                assert(acc * 10 + dv <= usize::MAX) by (nonlinear_arith)
                    requires acc <= (usize::MAX - dv) / 10, dv <= 9;
                acc = acc * 10 + dv;
            }
        } else {
            assert(digits_value(pre) * 10 + dv >= digits_value(pre)) by (nonlinear_arith);
        }
        k = k + 1;
    }
    assert(d.subrange(0, n - i) =~= d);
    if overflow {
        None
    } else {
        Some(acc)
    }
}

/// Whether a mapping key is the integer that position `i` becomes as a key.
fn key_matches_index(k: &Node, i: usize) -> (r: bool)
    ensures
        r == key_is_index(*k, i as nat),
{
    match k {
        Node::Int(n) => {
            if (i as u64) <= 9223372036854775807u64 {
                *n == i as i64
            } else {
                *n < 0 && (*n as i128) + 18446744073709551616i128 == i as i128
            }
        },
        _ => false,
    }
}

/// Whether a mapping key is the string `s`.
pub(crate) fn key_matches_str(k: &Node, s: &str) -> (r: bool)
    ensures
        r == key_is_str(*k, s@),
{
    match k {
        Node::Str(t) => str_eq(t.as_str(), s),
        _ => false,
    }
}

/// Character-wise equality of two strings.
fn str_eq(a: &str, b: &str) -> (r: bool)
    ensures
        r == (a@ == b@),
{
    let n = a.unicode_len();
    if n != b.unicode_len() {
        return false;
    }
    let mut i: usize = 0;
    while i < n
        invariant
            n == a@.len() == b@.len(),
            i <= n,
            forall|j: int| 0 <= j < i ==> a@[j] == b@[j],
        decreases n - i,
    {
        if a.get_char(i) != b.get_char(i) {
            return false;
        }
        i = i + 1;
    }
    assert(a@ =~= b@);
    true
}

/// One step of a key path from `n` (see `step`).
pub fn index_node<'a>(n: &'a Node, seg: &str) -> (r: Option<&'a Node>)
    ensures
        match step(*n, seg@) {
            Some(c) => r == Some(&c),
            None => r is None,
        },
{
    let idx = parse_segment(seg);
    match n {
        Node::Sequence(v) => {
            match idx {
                Some(i) => if i < v.len() {
                    Some(&v[i])
                } else {
                    None
                },
                None => None,
            }
        },
        Node::Mapping(m) => {
            let mut j: usize = 0;
            assert(m@.subrange(0, m@.len() as int) =~= m@);
            while j < m.len()
                invariant
                    j <= m@.len(),
                    *n == Node::Mapping(*m),
                    match parse_index(seg@) {
                        Some(x) => idx is Some && idx->0 as nat == x,
                        None => idx is None,
                    },
                    match idx {
                        Some(i) => lookup_index(m@, i as nat) == lookup_index(m@.subrange(j as int, m@.len() as int), i as nat),
                        None => lookup_str(m@, seg@) == lookup_str(m@.subrange(j as int, m@.len() as int), seg@),
                    },
                decreases m@.len() - j,
            {
                let ghost rest = m@.subrange(j as int, m@.len() as int);
                assert(rest.drop_first() =~= m@.subrange(j + 1, m@.len() as int));
                let found = match idx {
                    Some(i) => key_matches_index(&m[j].0, i),
                    None => key_matches_str(&m[j].0, seg),
                };
                assert(rest[0] == m@[j as int]);
                if found {
                    match idx {
                        Some(i) => {
                            assert(parse_index(seg@) == Some(i as nat));
                            assert(lookup_index(rest, i as nat) == Some(rest[0].1));
                        },
                        None => {
                            assert(lookup_str(rest, seg@) == Some(rest[0].1));
                        },
                    }
                    return Some(&m[j].1);
                }
                j = j + 1;
            }
            None
        },
        _ => None,
    }
}

/// Follows a dotted key path from `doc` to a string scalar.
pub fn resolve_key(doc: &Node, key: &str) -> (r: Option<String>)
    ensures
        match resolve(*doc, key@) {
            Some(s) => r is Some && r->0@ == s,
            None => r is None,
        },
{
    let segs = split_key(key);
    let ghost ss = split_dots(key@);
    let mut cur: &Node = doc;
    let mut i: usize = 0;
    assert(ss.subrange(0, ss.len() as int) =~= ss);
    while i < segs.len()
        invariant
            ss == split_dots(key@),
            segs@.len() == ss.len(),
            forall|j: int| 0 <= j < segs@.len() ==> #[trigger] segs@[j]@ == ss[j],
            i <= segs@.len(),
            walk(*doc, ss) == walk(*cur, ss.subrange(i as int, ss.len() as int)),
        decreases segs@.len() - i,
    {
        let ghost rest = ss.subrange(i as int, ss.len() as int);
        assert(rest.drop_first() =~= ss.subrange(i + 1, ss.len() as int));
        assert(rest[0] == segs@[i as int]@);
        match index_node(cur, segs[i].as_str()) {
            Some(c) => {
                cur = c;
            },
            None => {
                assert(walk(*cur, rest) is None);
                return None;
            },
        }
        i = i + 1;
    }
    assert(ss.subrange(i as int, ss.len() as int) =~= Seq::<Seq<char>>::empty());
    match cur {
        Node::Str(s) => Some(s.clone()),
        _ => None,
    }
}

} // verus!
