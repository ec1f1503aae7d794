use vstd::prelude::*;

verus! {

/// The separator between the components of a virtual path.
pub const SEPARATOR: char = '/';

/// The root directory, as a sequence of characters.
pub open spec fn root() -> Seq<char> {
    seq!['/']
}

/// Position of the last separator in `p`, or `-1` where `p` holds none.
pub open spec fn last_separator(p: Seq<char>) -> int
    decreases p.len(),
{
    if p.len() == 0 {
        -1
    } else if p.last() == '/' {
        p.len() - 1
    } else {
        last_separator(p.drop_last())
    }
}

/// The directory that directly holds `p`: everything before the last
/// separator, or the root where that separator opens the path. The root
/// itself and a name without a separator have no parent.
pub open spec fn parent_of(p: Seq<char>) -> Option<Seq<char>> {
    let cut = last_separator(p);
    if cut < 0 || p == root() {
        None
    } else if cut == 0 {
        Some(root())
    } else {
        Some(p.subrange(0, cut))
    }
}

/// `last_separator` finds a separator after which none follows.
pub proof fn lemma_last_separator(p: Seq<char>)
    ensures
        -1 <= last_separator(p) < p.len(),
        last_separator(p) >= 0 ==> p[last_separator(p)] == '/',
        forall|j: int| last_separator(p) < j < p.len() ==> p[j] != '/',
    decreases p.len(),
{
    if p.len() > 0 && p.last() != '/' {
        lemma_last_separator(p.drop_last());
        assert forall|j: int| last_separator(p) < j < p.len() implies p[j] != '/' by {
            if j < p.len() - 1 {
                assert(p.drop_last()[j] == p[j]);
            }
        }
    }
}

/// A position that holds a separator and is followed by none is the last one.
pub proof fn lemma_last_separator_unique(p: Seq<char>, i: int)
    requires
        -1 <= i < p.len(),
        i >= 0 ==> p[i] == '/',
        forall|j: int| i < j < p.len() ==> p[j] != '/',
    ensures
        last_separator(p) == i,
{
    lemma_last_separator(p);
}

/// A parent is no longer than its child, and is never the child itself.
pub proof fn lemma_parent_differs(p: Seq<char>)
    ensures
        parent_of(p) matches Some(d) ==> d.len() <= p.len() && d != p,
{
    lemma_last_separator(p);
}

/// The root directory as an owned string.
pub fn root_path() -> (r: String)
    ensures
        r@ == root(),
{
    proof {
        reveal_strlit("/");
    }
    let r = String::from_str("/");
    r
}

/// Whether `path` names the root directory.
pub fn is_root(path: &str) -> (r: bool)
    ensures
        r == (path@ == root()),
{
    let n = path.unicode_len();
    if n != 1 {
        return false;
    }
    let c = path.get_char(0);
    assert(c == '/' ==> path@ =~= root());
    c == SEPARATOR
}

/// The directory that directly holds `path`, if it has one.
pub fn parent(path: &str) -> (r: Option<String>)
    ensures
        match r {
            Some(d) => parent_of(path@) == Some(d@),
            None => parent_of(path@) is None,
        },
{
    let n = path.unicode_len();
    let mut i: usize = n;
    while i > 0 && path.get_char(i - 1) != SEPARATOR
        invariant
            i <= n,
            n == path@.len(),
            forall|j: int| i <= j < n ==> path@[j] != '/',
        decreases i,
    {
        i = i - 1;
    }
    if i == 0 {
        proof {
            lemma_last_separator_unique(path@, -1);
        }
        return None;
    }
    proof {
        lemma_last_separator_unique(path@, i - 1);
    }
    if i == 1 {
        if n == 1 {
            assert(path@ =~= root());
            None
        } else {
            Some(root_path())
        }
    } else {
        let d = path.substring_char(0, i - 1);
        Some(String::from_str(d))
    }
}

} // verus!
