//! Paths as the engine reads them: `/`-separated, with empty and `.` segments
//! ignored. A path is well formed when it is absolute and has no `..`
//! component; a path that is not is never trusted through a directory rule.
use vstd::prelude::*;
use crate::config::string_views;

verus! {

/// A segment that names no directory: empty (from `//` or a trailing `/`) or `.`.
pub open spec fn is_skipped(seg: Seq<char>) -> bool {
    seg.len() == 0 || seg == seq!['.']
}

/// The `..` component, which lexical normalization cannot resolve safely.
pub open spec fn is_up_component(c: Seq<char>) -> bool {
    c == seq!['.', '.']
}

/// Ends the pending segment: kept unless it is skipped.
pub open spec fn close_segment(done: Seq<Seq<char>>, cur: Seq<char>) -> Seq<Seq<char>> {
    if is_skipped(cur) {
        done
    } else {
        done.push(cur)
    }
}

/// Reading `p` left to right: the components completed so far and the
/// segment still pending after the last `/`.
pub open spec fn scan(p: Seq<char>) -> (Seq<Seq<char>>, Seq<char>)
    decreases p.len(),
{
    if p.len() == 0 {
        (Seq::empty(), Seq::empty())
    } else {
        let (done, cur) = scan(p.drop_last());
        if p.last() == '/' {
            (close_segment(done, cur), Seq::empty())
        } else {
            (done, cur.push(p.last()))
        }
    }
}

/// The components of a path, in order.
pub open spec fn components(p: Seq<char>) -> Seq<Seq<char>> {
    close_segment(scan(p).0, scan(p).1)
}

/// Absolute, and with no `..` component.
pub open spec fn well_formed_path(p: Seq<char>) -> bool {
    &&& p.len() > 0
    &&& p[0] == '/'
    &&& forall|j: int| 0 <= j < components(p).len() ==> !is_up_component(#[trigger] components(p)[j])
}

/// `dir` is `path` itself or one of its ancestors, component by component.
pub open spec fn is_ancestor_or_self(dir: Seq<char>, path: Seq<char>) -> bool {
    &&& well_formed_path(dir)
    &&& well_formed_path(path)
    &&& components(dir).is_prefix_of(components(path))
}

/// Whether `seg` is skipped.
fn segment_skipped(seg: &str) -> (r: bool)
    ensures
        r == is_skipped(seg@),
{
    let n = seg.unicode_len();
    if n == 0 {
        true
    } else if n == 1 {
        let c = seg.get_char(0);
        assert(c == '.' ==> seg@ =~= seq!['.']);
        c == '.'
    } else {
        false
    }
}

/// Splits a path into its components. The second result ends the prefix of
/// `p` that names the parent directory: its components are all but the last.
pub fn split_path(p: &str) -> (r: (Vec<String>, usize))
    ensures
        string_views(r.0@) == components(p@),
        r.1 <= p@.len(),
        components(p@).len() > 0 ==> components(p@.take(r.1 as int)) == components(p@).drop_last(),
        p@.len() > 0 && p@[0] == '/' && components(p@).len() > 0 ==> r.1 >= 1,
{
    let n = p.unicode_len();
    let mut done: Vec<String> = Vec::new();
    let mut cur_start: usize = 0;
    let mut parent_end: usize = 0;
    let mut i: usize = 0;
    assert(p@.take(0) =~= Seq::<char>::empty());
    assert(string_views(done@) =~= Seq::<Seq<char>>::empty());
    while i < n
        invariant
            n == p@.len(),
            parent_end <= cur_start <= i <= n,
            scan(p@.take(i as int)) == (string_views(done@), p@.subrange(cur_start as int, i as int)),
            scan(p@.take(cur_start as int)) == (string_views(done@), Seq::<char>::empty()),
            done@.len() > 0 ==> components(p@.take(parent_end as int)) == string_views(done@).drop_last(),
            p@.len() > 0 && p@[0] == '/' && i >= 1 ==> cur_start >= 1,
            p@.len() > 0 && p@[0] == '/' && done@.len() > 0 ==> parent_end >= 1,
        decreases n - i,
    {
        let c = p.get_char(i);
        assert(p@.take(i + 1).drop_last() =~= p@.take(i as int));
        assert(p@.subrange(cur_start as int, i + 1) =~= p@.subrange(cur_start as int, i as int).push(c));
        if c == '/' {
            let seg = p.substring_char(cur_start, i);
            if !segment_skipped(seg) {
                let ghost before = done@;
                done.push(seg.to_owned());
                assert(string_views(done@).drop_last() =~= string_views(before));
                assert(string_views(done@) =~= string_views(before).push(seg@));
                parent_end = cur_start;
            }
            cur_start = i + 1;
            assert(p@.subrange(cur_start as int, i + 1) =~= Seq::<char>::empty());
        }
        i = i + 1;
    }
    assert(p@.take(n as int) =~= p@);
    let seg = p.substring_char(cur_start, n);
    if !segment_skipped(seg) {
        let ghost before = done@;
        done.push(seg.to_owned());
        assert(string_views(done@).drop_last() =~= string_views(before));
        assert(string_views(done@) =~= string_views(before).push(seg@));
        parent_end = cur_start;
    }
    (done, parent_end)
}

/// Whether a component is `..`.
fn is_up(c: &String) -> (r: bool)
    ensures
        r == is_up_component(c@),
{
    let s = c.as_str();
    let n = s.unicode_len();
    if n == 2 {
        let a = s.get_char(0);
        let b = s.get_char(1);
        assert(a == '.' && b == '.' ==> s@ =~= seq!['.', '.']);
        a == '.' && b == '.'
    } else {
        false
    }
}

/// Whether `p`, split into `comps`, is well formed.
fn check_well_formed(p: &str, comps: &Vec<String>) -> (r: bool)
    requires
        string_views(comps@) == components(p@),
    ensures
        r == well_formed_path(p@),
{
    if p.unicode_len() == 0 || p.get_char(0) != '/' {
        return false;
    }
    let mut j: usize = 0;
    while j < comps.len()
        invariant
            string_views(comps@) == components(p@),
            j <= comps@.len(),
            forall|k: int| 0 <= k < j ==> !is_up_component(#[trigger] components(p@)[k]),
        decreases comps@.len() - j,
    {
        assert(components(p@)[j as int] == comps@[j as int]@);
        if is_up(&comps[j]) {
            return false;
        }
        j = j + 1;
    }
    true
}

/// Whether the components `d` begin the components `q`.
fn components_prefix(d: &Vec<String>, q: &Vec<String>) -> (r: bool)
    ensures
        r == string_views(d@).is_prefix_of(string_views(q@)),
{
    if d.len() > q.len() {
        return false;
    }
    let mut j: usize = 0;
    while j < d.len()
        invariant
            d@.len() <= q@.len(),
            j <= d@.len(),
            forall|k: int| 0 <= k < j ==> d@[k]@ == q@[k]@,
        decreases d@.len() - j,
    {
        if d[j] != q[j] {
            assert(string_views(d@)[j as int] != string_views(q@)[j as int]);
            return false;
        }
        j = j + 1;
    }
    assert(string_views(d@) =~= string_views(q@).take(d@.len() as int));
    true
}

/// Whether the directory `dir` is `path` or one of its ancestors.
pub fn is_ancestor_or_self_of(dir: &str, path: &str) -> (r: bool)
    ensures
        r == is_ancestor_or_self(dir@, path@),
{
    let (d, _) = split_path(dir);
    let (q, _) = split_path(path);
    check_well_formed(dir, &d) && check_well_formed(path, &q) && components_prefix(&d, &q)
}

/// The parent of a well-formed path with at least one component is well formed.
pub proof fn lemma_parent_well_formed(p: Seq<char>, end: int)
    requires
        well_formed_path(p),
        components(p).len() > 0,
        1 <= end <= p.len(),
        components(p.take(end)) == components(p).drop_last(),
    ensures
        well_formed_path(p.take(end)),
        components(p.take(end)).is_prefix_of(components(p)),
{
    assert forall|j: int| 0 <= j < components(p.take(end)).len() implies !is_up_component(
        #[trigger] components(p.take(end))[j],
    ) by {
        assert(components(p.take(end))[j] == components(p)[j]);
    }
}

/// `q` names the parent directory of the well-formed path `p`.
pub open spec fn is_parent_of(q: Seq<char>, p: Seq<char>) -> bool {
    &&& well_formed_path(p)
    &&& components(p).len() > 0
    &&& well_formed_path(q)
    &&& components(q) == components(p).drop_last()
}

/// Whether `p` is well formed.
pub fn is_well_formed(p: &str) -> (r: bool)
    ensures
        r == well_formed_path(p@),
{
    let (comps, _) = split_path(p);
    check_well_formed(p, &comps)
}

/// The parent directory of `p`, where `p` is well formed and not the root.
pub fn parent_dir(p: &str) -> (r: Option<String>)
    ensures
        r is Some <==> well_formed_path(p@) && components(p@).len() > 0,
        r matches Some(q) ==> is_parent_of(q@, p@),
{
    let (comps, end) = split_path(p);
    if check_well_formed(p, &comps) && comps.len() > 0 {
        let q = p.substring_char(0, end);
        assert(q@ =~= p@.take(end as int));
        proof {
            lemma_parent_well_formed(p@, end as int);
        }
        Some(q.to_owned())
    } else {
        None
    }
}

} // verus!
