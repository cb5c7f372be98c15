use vstd::prelude::*;

verus! {

broadcast use vstd::string::axiom_spec_iter;

/// True when `p` is a prefix of `s`.
pub open spec fn has_prefix(s: Seq<char>, p: Seq<char>) -> bool {
    p.len() <= s.len() && s.take(p.len() as int) == p
}

/// True when no character of `s` is a dash.
pub open spec fn dash_free(s: Seq<char>) -> bool {
    forall|i: int| 0 <= i < s.len() ==> s[i] != '-'
}

/// True when `i` is the position of the only dash in `s`.
pub open spec fn only_dash_at(s: Seq<char>, i: int) -> bool {
    &&& 0 <= i < s.len()
    &&& s[i] == '-'
    &&& dash_free(s.take(i))
    &&& dash_free(s.skip(i + 1))
}

/// The two pieces of `s` around its only dash; `None` when `s` holds no dash
/// or more than one. (This is when `str::split('-')` yields exactly two pieces.)
pub open spec fn split_at_only_dash(s: Seq<char>) -> Option<(Seq<char>, Seq<char>)> {
    if exists|i: int| only_dash_at(s, i) {
        let i = choose|i: int| only_dash_at(s, i);
        Some((s.take(i), s.skip(i + 1)))
    } else {
        None
    }
}

/// A string holds at most one position that is its only dash.
pub proof fn lemma_only_dash_unique(s: Seq<char>, i: int, j: int)
    requires
        only_dash_at(s, i),
        only_dash_at(s, j),
    ensures
        i == j,
{
    if i < j {
        assert(s.take(j)[i] == s[i]);
    } else if j < i {
        assert(s.take(i)[j] == s[j]);
    }
}

/// The characters of a string slice, in order.
pub(crate) fn chars_of(s: &str) -> (v: Vec<char>)
    ensures
        v@ == s@,
{
    let mut v: Vec<char> = Vec::new();
    for c in it: s.chars()
        invariant
            v@ == it.seq().take(it.index() as int),
            it.seq() == s@,
    {
        v.push(c);
        assert(it.seq().take(it.index() + 1) == it.seq().take(it.index() as int).push(c));
    }
    v
}

/// Whether the characters `cs[from..]` start with `p`.
fn matches_at(cs: &Vec<char>, from: usize, p: &Vec<char>) -> (r: bool)
    requires
        from <= cs@.len(),
    ensures
        r == has_prefix(cs@.skip(from as int), p@),
{
    let n: usize = cs.len();
    if p.len() > n - from {
        return false;
    }
    let mut i: usize = 0;
    while i < p.len()
        invariant
            n == cs@.len(),
            from <= cs@.len(),
            p@.len() <= cs@.len() - from,
            0 <= i <= p@.len(),
            forall|k: int| 0 <= k < i ==> cs@[from + k] == p@[k],
        decreases p@.len() - i,
    {
        if cs[from + i] != p[i] {
            assert(cs@.skip(from as int).take(p@.len() as int)[i as int] != p@[i as int]);
            return false;
        }
        i = i + 1;
    }
    assert(cs@.skip(from as int).take(p@.len() as int) =~= p@);
    true
}

/// Whether the characters `cs` spell exactly the text `lit`.
pub(crate) fn spells(cs: &Vec<char>, lit: &str) -> (r: bool)
    ensures
        r == (cs@ == lit@),
{
    let p = chars_of(lit);
    if cs.len() != p.len() {
        return false;
    }
    let r = matches_at(cs, 0, &p);
    assert(cs@.skip(0) == cs@);
    assert(r ==> cs@.take(p@.len() as int) == cs@);
    r
}

/// Whether the characters `cs` begin with the text `lit`.
pub(crate) fn begins_with(cs: &Vec<char>, lit: &str) -> (r: bool)
    ensures
        r == has_prefix(cs@, lit@),
{
    let p = chars_of(lit);
    assert(cs@.skip(0) == cs@);
    matches_at(cs, 0, &p)
}

/// The position of the first dash in `cs[from..]`, counted from `from`, or the
/// length of that tail when it holds none.
fn first_dash(cs: &Vec<char>, from: usize) -> (i: usize)
    requires
        from <= cs@.len(),
    ensures
        i <= cs@.len() - from,
        dash_free(cs@.skip(from as int).take(i as int)),
        i < cs@.len() - from ==> cs@[from + i] == '-',
{
    let mut i: usize = 0;
    while i < cs.len() - from
        invariant
            from <= cs@.len(),
            i <= cs@.len() - from,
            dash_free(cs@.skip(from as int).take(i as int)),
        decreases cs@.len() - from - i,
    {
        if cs[from + i] == '-' {
            return i;
        }
        assert(cs@.skip(from as int).take(i + 1) =~= cs@.skip(from as int).take(i as int).push(
            cs@[from + i],
        ));
        i = i + 1;
    }
    i
}

/// Where the tail `cs[from..]` holds exactly one dash, its position within the tail.
pub(crate) fn only_dash_in_tail(cs: &Vec<char>, from: usize) -> (r: Option<usize>)
    requires
        from <= cs@.len(),
    ensures
        r is Some <==> exists|i: int| only_dash_at(cs@.skip(from as int), i),
        r matches Some(i) ==> only_dash_at(cs@.skip(from as int), i as int),
{
    let ghost t = cs@.skip(from as int);
    let i: usize = first_dash(cs, from);
    if i == cs.len() - from {
        assert(t.take(i as int) == t);
        assert forall|j: int| !only_dash_at(t, j) by {
            if 0 <= j < t.len() {
                assert(t.take(i as int)[j] == t[j]);
            }
        }
        return None;
    }
    let rest: usize = first_dash(cs, from + i + 1);
    assert(cs@.skip(from + i + 1) =~= t.skip(i + 1));
    if rest == cs.len() - (from + i + 1) {
        assert(t.skip(i + 1).take(rest as int) == t.skip(i + 1));
        assert(only_dash_at(t, i as int));
        Some(i)
    } else {
        assert forall|j: int| !only_dash_at(t, j) by {
            if only_dash_at(t, j) {
                if j < i {
                    assert(t.take(i as int)[j] == t[j]);
                } else if j > i {
                    assert(t.take(j)[i as int] == t[i as int]);
                } else {
                    assert(t.skip(i + 1)[rest as int] == t[i + 1 + rest]);
                }
            }
        }
        None
    }
}

} // verus!
