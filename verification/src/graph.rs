//! Reachability in a directed graph over integer nodes, and what the visited
//! list of a depth-first search shows about it.

use vstd::prelude::*;

verus! {

/// Step `i` of `path` follows an edge and leaves a node that is not blocked.
pub open spec fn step(edge: spec_fn(usize, usize) -> bool, path: Seq<usize>, blocked: Set<usize>, i: int) -> bool {
    edge(path[i], path[i + 1]) && !blocked.contains(path[i])
}

/// `path` follows `edge`, and no node before its last is blocked.
pub open spec fn is_path(edge: spec_fn(usize, usize) -> bool, path: Seq<usize>, blocked: Set<usize>) -> bool {
    &&& path.len() >= 1
    &&& forall|i: int| 0 <= i < path.len() - 1 ==> #[trigger] step(edge, path, blocked, i)
}

/// Some path leads from `from` to `to` without passing through a blocked node
/// on the way.
pub open spec fn reaches(edge: spec_fn(usize, usize) -> bool, from: usize, to: usize, blocked: Set<usize>) -> bool {
    exists|path: Seq<usize>| #[trigger] is_path(edge, path, blocked) && path[0] == from && path.last() == to
}

/// Every node of `seen` that the search has finished (it is neither on the
/// search stack nor blocked) has all its successors seen, and none of them
/// is `to`.
pub open spec fn closed(
    edge: spec_fn(usize, usize) -> bool,
    seen: Seq<usize>,
    stack: Set<usize>,
    blocked: Set<usize>,
    to: usize,
) -> bool {
    forall|u: usize, w: usize|
        #![trigger edge(u, w), seen.contains(u)]
        seen.contains(u) && !stack.contains(u) && !blocked.contains(u) && edge(u, w) ==> seen.contains(w)
            && w != to
}

/// `longer` starts with `shorter`.
pub open spec fn extends(longer: Seq<usize>, shorter: Seq<usize>) -> bool {
    &&& shorter.len() <= longer.len()
    &&& forall|i: int| 0 <= i < shorter.len() ==> #[trigger] longer[i] == shorter[i]
}

/// A node reaches itself.
pub proof fn lemma_reaches_self(edge: spec_fn(usize, usize) -> bool, v: usize, blocked: Set<usize>)
    ensures
        reaches(edge, v, v, blocked),
{
    let path = seq![v];
    assert(is_path(edge, path, blocked));
}

/// A path from a successor extends back to an unblocked predecessor.
pub proof fn lemma_reaches_prepend(
    edge: spec_fn(usize, usize) -> bool,
    u: usize,
    w: usize,
    to: usize,
    blocked: Set<usize>,
)
    requires
        edge(u, w),
        !blocked.contains(u),
        reaches(edge, w, to, blocked),
    ensures
        reaches(edge, u, to, blocked),
{
    let path = choose|path: Seq<usize>| #[trigger] is_path(edge, path, blocked) && path[0] == w && path.last() == to;
    let longer = seq![u] + path;
    assert forall|i: int| 0 <= i < longer.len() - 1 implies #[trigger] step(edge, longer, blocked, i) by {
        if i > 0 {
            assert(step(edge, path, blocked, i - 1));
        }
    }
    assert(is_path(edge, longer, blocked));
    assert(longer.last() == path.last());
}

/// A longer list keeps every element of the list it extends.
pub proof fn lemma_extends_contains(longer: Seq<usize>, shorter: Seq<usize>, x: usize)
    requires
        extends(longer, shorter),
        shorter.contains(x),
    ensures
        longer.contains(x),
{
    let i = choose|i: int| 0 <= i < shorter.len() && shorter[i] == x;
    assert(longer[i] == shorter[i]);
}

/// Extension is transitive.
pub proof fn lemma_extends_trans(a: Seq<usize>, b: Seq<usize>, c: Seq<usize>)
    requires
        extends(a, b),
        extends(b, c),
    ensures
        extends(a, c),
{
    assert forall|i: int| 0 <= i < c.len() implies #[trigger] a[i] == c[i] by {
        assert(a[i] == b[i]);
    }
}

/// Along a path from a seen start other than `to`, with the finished nodes
/// closed and nothing on the stack, every node is seen and none is `to`.
proof fn lemma_closed_path_prefix(
    edge: spec_fn(usize, usize) -> bool,
    seen: Seq<usize>,
    blocked: Set<usize>,
    to: usize,
    path: Seq<usize>,
    i: int,
)
    requires
        is_path(edge, path, blocked),
        closed(edge, seen, Set::empty(), blocked, to),
        0 <= i < path.len(),
        seen.contains(path[0]),
        path[0] != to,
    ensures
        seen.contains(path[i]),
        path[i] != to,
    decreases i,
{
    if i > 0 {
        lemma_closed_path_prefix(edge, seen, blocked, to, path, i - 1);
        assert(step(edge, path, blocked, i - 1));
    }
}

/// When the finished nodes of a search with an empty stack are closed, a
/// seen start other than `to` does not reach `to`.
pub proof fn lemma_closed_unreachable(
    edge: spec_fn(usize, usize) -> bool,
    seen: Seq<usize>,
    blocked: Set<usize>,
    from: usize,
    to: usize,
)
    requires
        closed(edge, seen, Set::empty(), blocked, to),
        seen.contains(from),
        from != to,
    ensures
        !reaches(edge, from, to, blocked),
{
    if reaches(edge, from, to, blocked) {
        let path = choose|path: Seq<usize>| #[trigger] is_path(edge, path, blocked) && path[0] == from && path.last() == to;
        lemma_closed_path_prefix(edge, seen, blocked, to, path, path.len() - 1);
    }
}

/// With nothing blocked, reachability is transitive.
pub proof fn lemma_reaches_trans(edge: spec_fn(usize, usize) -> bool, a: usize, b: usize, c: usize)
    requires
        reaches(edge, a, b, Set::empty()),
        reaches(edge, b, c, Set::empty()),
    ensures
        reaches(edge, a, c, Set::empty()),
{
    let p = choose|path: Seq<usize>| #[trigger] is_path(edge, path, Set::empty()) && path[0] == a && path.last() == b;
    let q = choose|path: Seq<usize>| #[trigger] is_path(edge, path, Set::empty()) && path[0] == b && path.last() == c;
    let joined = p + q.subrange(1, q.len() as int);
    assert forall|i: int| 0 <= i < joined.len() - 1 implies #[trigger] step(edge, joined, Set::empty(), i) by {
        if i < p.len() - 1 {
            assert(step(edge, p, Set::empty(), i));
        } else if i == p.len() - 1 {
            assert(step(edge, q, Set::empty(), 0));
        } else {
            assert(step(edge, q, Set::empty(), i - p.len() + 1));
        }
    }
    assert(is_path(edge, joined, Set::empty()));
    if q.len() == 1 {
        assert(joined =~= p);
    } else {
        assert(joined.last() == q.last());
    }
}

} // verus!
