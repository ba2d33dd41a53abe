//! Local paths taken by their components: whether a directory lies within a location's
//! root, its parent, and the trail of directories from the root down to it.

use vstd::prelude::*;

use crate::config_text::{char_views, tokens};
use crate::file_operations::char_is;
use crate::ssh::path_segments;
use crate::text::{chars_of, string_from_chars, str_eq};

verus! {

broadcast use vstd::seq_lib::group_seq_properties;

/// The components of a path: the non-empty runs between separators.
pub open spec fn components(p: Seq<char>) -> Seq<Seq<char>> {
    tokens(p, char_is('/'))
}

pub open spec fn is_absolute(p: Seq<char>) -> bool {
    p.len() > 0 && p[0] == '/'
}

/// Whether `path` is `root` or lies below it, component by component.
pub open spec fn path_within(path: Seq<char>, root: Seq<char>) -> bool {
    is_absolute(path) == is_absolute(root) && components(root).len() <= components(path).len()
        && components(path).take(components(root).len() as int) == components(root)
}

/// Components joined by single separators.
pub open spec fn joined(cs: Seq<Seq<char>>) -> Seq<char>
    decreases cs.len(),
{
    if cs.len() == 0 {
        Seq::empty()
    } else if cs.len() == 1 {
        cs[0]
    } else {
        joined(cs.drop_last()) + "/"@ + cs.last()
    }
}

/// The path made of the first `k` components of `path`, keeping whether it is absolute.
pub open spec fn ancestor(path: Seq<char>, k: int) -> Seq<char> {
    (if is_absolute(path) { "/"@ } else { Seq::empty() }) + joined(components(path).take(k))
}

fn same_components(a: &Vec<Vec<char>>, b: &Vec<Vec<char>>, n: usize) -> (r: bool)
    requires
        n <= a@.len(),
        n <= b@.len(),
    ensures
        r == (char_views(a@).take(n as int) == char_views(b@).take(n as int)),
{
    let ghost va = char_views(a@);
    let ghost vb = char_views(b@);
    let mut i: usize = 0;
    while i < n
        invariant
            n <= a@.len(),
            n <= b@.len(),
            va == char_views(a@),
            vb == char_views(b@),
            i <= n,
            forall|k: int| 0 <= k < i ==> va[k] == vb[k],
        decreases n - i,
    {
        let x = &a[i];
        let y = &b[i];
        assert(va[i as int] == x@);
        assert(vb[i as int] == y@);
        if x.len() != y.len() {
            assert(va.take(n as int)[i as int] != vb.take(n as int)[i as int]);
            return false;
        }
        let mut j: usize = 0;
        while j < x.len()
            invariant
                x@.len() == y@.len(),
                j <= x@.len(),
                forall|k: int| 0 <= k < j ==> x@[k] == y@[k],
                i < n,
                n <= a@.len(),
                n <= b@.len(),
                va == char_views(a@),
                vb == char_views(b@),
                va[i as int] == x@,
                vb[i as int] == y@,
            decreases x.len() - j,
        {
            if x[j] != y[j] {
                assert(x@ != y@);
                assert(va.take(n as int)[i as int] != vb.take(n as int)[i as int]);
                return false;
            }
            j = j + 1;
        }
        assert(x@ =~= y@);
        i = i + 1;
    }
    assert(va.take(n as int) =~= vb.take(n as int));
    true
}

/// The components of `path` and of `root`, when `path` lies within `root`.
pub fn within_root(path: &str, root: &str) -> (r: bool)
    ensures
        r == path_within(path@, root@),
{
    let pc = chars_of(path);
    let rc = chars_of(root);
    let p_abs = pc.len() > 0 && pc[0] == '/';
    let r_abs = rc.len() > 0 && rc[0] == '/';
    if p_abs != r_abs {
        return false;
    }
    let ps = path_segments(&pc);
    let rs = path_segments(&rc);
    if rs.len() > ps.len() {
        return false;
    }
    same_components(&ps, &rs, rs.len())
}

/// The path of the first `k` components of `path`.
pub fn ancestor_path(path: &str, k: usize) -> (r: String)
    requires
        k <= components(path@).len(),
    ensures
        r@ == ancestor(path@, k as int),
{
    let pc = chars_of(path);
    let segments = path_segments(&pc);
    let mut out: Vec<char> = Vec::new();
    if pc.len() > 0 && pc[0] == '/' {
        out.push('/');
    }
    let ghost head = out@;
    let ghost cs = components(path@);
    proof {
        reveal_strlit("/");
        assert(head == (if is_absolute(path@) { "/"@ } else { Seq::<char>::empty() }));
    }
    let mut i: usize = 0;
    while i < k
        invariant
            k <= cs.len(),
            char_views(segments@) == cs,
            i <= k,
            out@ == head + joined(cs.take(i as int)),
        decreases k - i,
    {
        assert(char_views(segments@)[i as int] == segments@[i as int]@);
        let ghost before = out@;
        if i > 0 {
            out.push('/');
        }
        let seg = &segments[i];
        let mut j: usize = 0;
        let ghost mid = out@;
        while j < seg.len()
            invariant
                j <= seg@.len(),
                out@ == mid + seg@.take(j as int),
            decreases seg.len() - j,
        {
            out.push(seg[j]);
            assert(seg@.take(j as int + 1) =~= seg@.take(j as int).push(seg@[j as int]));
            j = j + 1;
        }
        assert(seg@.take(seg@.len() as int) =~= seg@);
        assert(cs.take(i as int + 1).drop_last() =~= cs.take(i as int));
        proof {
            reveal_strlit("/");
            if i == 0 {
                assert(joined(cs.take(1)) == cs[0]);
                assert(out@ =~= head + joined(cs.take(i as int + 1)));
            } else {
                assert(cs.take(i as int + 1).last() == cs[i as int]);
                assert(joined(cs.take(i as int + 1)) == joined(cs.take(i as int)) + "/"@ + cs[i as int]);
                assert(out@ =~= head + joined(cs.take(i as int + 1)));
            }
        }
        i = i + 1;
    }
    assert(cs.take(k as int) =~= components(path@).take(k as int));
    string_from_chars(&out)
}

/// The number of components of a path.
pub fn component_count(path: &str) -> (r: usize)
    ensures
        r == components(path@).len(),
{
    let pc = chars_of(path);
    let segments = path_segments(&pc);
    segments.len()
}

} // verus!
