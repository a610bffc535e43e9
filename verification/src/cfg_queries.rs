//! Control-flow queries over the blocks of the function being emitted:
//! whether a block can reach another, whether it can run again, and whether
//! it sits below a repeating region.

use vstd::prelude::*;
use crate::emitter::FunctionEmitter;
use crate::graph::{
    closed, extends, lemma_closed_unreachable, lemma_extends_contains, lemma_extends_trans,
    lemma_reaches_prepend, lemma_reaches_self, reaches,
};
use crate::mir::{BasicBlock, MatchArm, Terminator};

verus! {

/// The blocks the arms of a multi-way branch continue to.
pub open spec fn arm_targets(arms: Seq<MatchArm>) -> Seq<usize> {
    arms.map_values(|a: MatchArm| a.target)
}

/// The blocks a multi-way branch continues to: its arms', then its default.
pub open spec fn match_targets(arms: Seq<MatchArm>, default: Option<usize>) -> Seq<usize> {
    match default {
        Some(d) => arm_targets(arms).push(d),
        None => arm_targets(arms),
    }
}

/// The blocks a terminator can continue to.
pub open spec fn successors(t: Terminator) -> Seq<usize> {
    match t {
        Terminator::Goto(b) => seq![b],
        Terminator::Match { arms, default, .. } => match_targets(arms@, default),
        Terminator::Call { next, .. } => seq![next],
        Terminator::Await { next, .. } => seq![next],
        Terminator::Switch { then_block, else_block, .. } => seq![then_block, else_block],
        _ => Seq::empty(),
    }
}

/// Block `u` of `blocks` can continue to block `w`.
pub open spec fn cfg_edge(blocks: Seq<BasicBlock>, u: usize, w: usize) -> bool {
    &&& u < blocks.len()
    &&& blocks[u as int].terminator matches Some(t)
    &&& successors(t).contains(w)
}

/// The control-flow graph of `blocks`.
pub open spec fn cfg(blocks: Seq<BasicBlock>) -> spec_fn(usize, usize) -> bool {
    |u: usize, w: usize| cfg_edge(blocks, u, w)
}

/// Returns the blocks a terminator can continue to.
pub fn terminator_successors(t: &Terminator) -> (r: Vec<usize>)
    ensures
        r@ == successors(*t),
{
    match t {
        Terminator::Goto(b) => vec![*b],
        Terminator::Match { arms, default, .. } => {
            let mut out: Vec<usize> = Vec::new();
            let mut i: usize = 0;
            while i < arms.len()
                invariant
                    i <= arms.len(),
                    out@ == arm_targets(arms@).take(i as int),
                decreases arms.len() - i,
            {
                out.push(arms[i].target);
                assert(arm_targets(arms@).take(i + 1) =~= arm_targets(arms@).take(i as int).push(arms@[i as int].target));
                i = i + 1;
            }
            assert(arm_targets(arms@).take(arms.len() as int) =~= arm_targets(arms@));
            match default {
                Some(d) => {
                    out.push(*d);
                },
                None => {},
            }
            out
        },
        Terminator::Call { next, .. } => vec![*next],
        Terminator::Await { next, .. } => vec![*next],
        Terminator::Switch { then_block, else_block, .. } => vec![*then_block, *else_block],
        _ => {
            let out: Vec<usize> = Vec::new();
            assert(out@ =~= Seq::<usize>::empty());
            out
        },
    }
}

fn contains_id(v: &Vec<usize>, x: usize) -> (r: bool)
    ensures
        r == v@.contains(x),
{
    crate::capture_analysis::seq_has(v, x)
}

fn copy_ids(v: &Vec<usize>) -> (r: Vec<usize>)
    ensures
        r@ == v@,
{
    let mut out: Vec<usize> = Vec::new();
    let mut i: usize = 0;
    while i < v.len()
        invariant
            i <= v.len(),
            out@ == v@.take(i as int),
        decreases v.len() - i,
    {
        out.push(v[i]);
        assert(v@.take(i + 1) =~= v@.take(i as int).push(v@[i as int]));
        i = i + 1;
    }
    assert(v@.take(v.len() as int) =~= v@);
    out
}

proof fn lemma_extends_all(longer: Seq<usize>, shorter: Seq<usize>)
    requires
        extends(longer, shorter),
    ensures
        forall|x: usize| shorter.contains(x) ==> longer.contains(x),
{
    assert forall|x: usize| shorter.contains(x) implies longer.contains(x) by {
        lemma_extends_contains(longer, shorter, x);
    }
}

/// Successor `k` of terminator `t` of block `b` is `b`, or reaches `b`
/// without passing through a block of `visited`.
pub open spec fn repeats_via(blocks: Seq<BasicBlock>, t: Terminator, b: usize, visited: Seq<usize>, k: int) -> bool {
    &&& 0 <= k < successors(t).len()
    &&& (successors(t)[k] == b || reaches(cfg(blocks), successors(t)[k], b, visited.to_set().insert(b)))
}

impl FunctionEmitter {
    /// Block `b` can run again: it is missing, or some successor is `b` or
    /// reaches `b` without passing through a block of `visited`.
    pub open spec fn can_repeat_spec(&self, b: usize, visited: Seq<usize>) -> bool {
        let blocks = self.function.blocks@;
        if b >= blocks.len() {
            true
        } else {
            match blocks[b as int].terminator {
                None => false,
                Some(t) => exists|k: int| #[trigger] repeats_via(blocks, t, b, visited, k),
            }
        }
    }

    /// The search behind `block_can_reach`.
    fn reach_dfs(
        &self,
        block_id: usize,
        target: usize,
        visited: &mut Vec<usize>,
        Ghost(stack): Ghost<Set<usize>>,
        Ghost(blocked): Ghost<Set<usize>>,
    ) -> (r: bool)
        requires
            forall|x: usize| stack.contains(x) ==> old(visited)@.contains(x),
            forall|x: usize| blocked.contains(x) ==> old(visited)@.contains(x),
            closed(cfg(self.function.blocks@), old(visited)@, stack, blocked, target),
        ensures
            extends(final(visited)@, old(visited)@),
            r ==> reaches(cfg(self.function.blocks@), block_id, target, blocked),
            !r ==> closed(cfg(self.function.blocks@), final(visited)@, stack, blocked, target),
            !r ==> final(visited)@.contains(block_id) && block_id != target,
        decreases usize::MAX - old(visited)@.len(),
    {
        let ghost graph = cfg(self.function.blocks@);
        if block_id == target {
            proof {
                lemma_reaches_self(graph, block_id, blocked);
            }
            return true;
        }
        if contains_id(visited, block_id) {
            return false;
        }
        let ghost entry = visited@;
        let ghost inner = stack.insert(block_id);
        visited.push(block_id);
        proof {
            lemma_extends_all(visited@, entry);
            assert(visited@.contains(block_id)) by {
                assert(visited@[entry.len() as int] == block_id);
            }
            assert forall|u: usize, w: usize|
                #![trigger graph(u, w), visited@.contains(u)]
                visited@.contains(u) && !inner.contains(u) && !blocked.contains(u) && graph(
                    u,
                    w,
                ) implies visited@.contains(w) && w != target by {
                if u != block_id {
                    assert(entry.contains(u)) by {
                        let i = choose|i: int| 0 <= i < visited@.len() && visited@[i] == u;
                        assert(i < entry.len());
                        assert(entry[i] == u);
                    }
                }
            }
        }
        let next: Vec<usize> = if block_id < self.function.blocks.len() {
            match &self.function.blocks[block_id].terminator {
                Some(t) => terminator_successors(t),
                None => Vec::new(),
            }
        } else {
            Vec::new()
        };
        assert forall|w: usize| graph(block_id, w) implies next@.contains(w) by {}
        let mut k: usize = 0;
        while k < next.len()
            invariant
                k <= next.len(),
                graph == cfg(self.function.blocks@),
                inner == stack.insert(block_id),
                entry == old(visited)@,
                extends(visited@, entry.push(block_id)),
                extends(entry.push(block_id), entry),
                !entry.contains(block_id),
                forall|x: usize| blocked.contains(x) ==> entry.contains(x),
                forall|x: usize| stack.contains(x) ==> entry.contains(x),
                block_id != target,
                forall|w: usize| graph(block_id, w) ==> next@.contains(w),
                forall|w: usize| next@.contains(w) ==> graph(block_id, w),
                closed(graph, visited@, inner, blocked, target),
                forall|j: int| 0 <= j < k ==> visited@.contains(#[trigger] next@[j]) && next@[j] != target,
            decreases next.len() - k,
        {
            let ghost before = visited@;
            let _bound = visited.len();
            proof {
                lemma_extends_all(visited@, entry.push(block_id));
                lemma_extends_all(entry.push(block_id), entry);
                assert(visited@.contains(block_id)) by {
                    assert(entry.push(block_id)[entry.len() as int] == block_id);
                    lemma_extends_contains(visited@, entry.push(block_id), block_id);
                }
            }
            let w = next[k];
            if self.reach_dfs(w, target, visited, Ghost(inner), Ghost(blocked)) {
                proof {
                    assert(next@.contains(w));
                    lemma_reaches_prepend(graph, block_id, w, target, blocked);
                    lemma_extends_trans(visited@, before, entry.push(block_id));
                    lemma_extends_trans(visited@, entry.push(block_id), entry);
                }
                return true;
            }
            proof {
                lemma_extends_all(visited@, before);
                lemma_extends_trans(visited@, before, entry.push(block_id));
            }
            k = k + 1;
        }
        proof {
            lemma_extends_all(visited@, entry.push(block_id));
            assert(visited@.contains(block_id)) by {
                assert(entry.push(block_id)[entry.len() as int] == block_id);
                lemma_extends_contains(visited@, entry.push(block_id), block_id);
            }
            assert forall|u: usize, w: usize|
                #![trigger graph(u, w), visited@.contains(u)]
                visited@.contains(u) && !stack.contains(u) && !blocked.contains(u) && graph(
                    u,
                    w,
                ) implies visited@.contains(w) && w != target by {
                if u == block_id {
                    assert(next@.contains(w));
                    let j = choose|j: int| 0 <= j < next@.len() && next@[j] == w;
                    assert(visited@.contains(next@[j]));
                }
            }
            lemma_extends_trans(visited@, entry.push(block_id), entry);
        }
        false
    }

    /// Returns whether a path of successors leads from `block_id` to
    /// `target` without passing through a block of `visited`; every block
    /// searched is added to `visited`.
    pub fn block_can_reach(&self, block_id: usize, target: usize, visited: &mut Vec<usize>) -> (r:
        bool)
        ensures
            r == reaches(cfg(self.function.blocks@), block_id, target, old(visited)@.to_set()),
            extends(final(visited)@, old(visited)@),
    {
        let ghost blocked = visited@.to_set();
        let ghost graph = cfg(self.function.blocks@);
        proof {
            assert forall|u: usize, w: usize|
                #![trigger graph(u, w), visited@.contains(u)]
                visited@.contains(u) && !Set::<usize>::empty().contains(u) && !blocked.contains(u)
                    && graph(u, w) implies visited@.contains(w) && w != target by {}
        }
        let r = self.reach_dfs(block_id, target, visited, Ghost(Set::empty()), Ghost(blocked));
        proof {
            if !r {
                lemma_closed_unreachable(graph, visited@, blocked, block_id, target);
            }
        }
        r
    }

    /// Returns whether control flow from `block_id` can reach `block_id`
    /// again without passing through a block of `visited`; a missing block
    /// counts as repeating. The block is added to `visited` when it has a
    /// terminator.
    pub fn block_can_repeat(&self, block_id: usize, visited: &mut Vec<usize>) -> (r: bool)
        ensures
            r == self.can_repeat_spec(block_id, old(visited)@),
            (block_id < self.function.blocks.len() && self.function.blocks@[block_id as int].terminator is Some
                && !old(visited)@.contains(block_id)) ==> final(visited)@ == old(visited)@.push(block_id),
            !(block_id < self.function.blocks.len() && self.function.blocks@[block_id as int].terminator is Some
                && !old(visited)@.contains(block_id)) ==> final(visited)@ == old(visited)@,
    {
        if block_id >= self.function.blocks.len() {
            return true;
        }
        let t = match &self.function.blocks[block_id].terminator {
            Some(t) => t,
            None => {
                return false;
            },
        };
        let ghost entry = visited@;
        if !contains_id(visited, block_id) {
            visited.push(block_id);
        }
        proof {
            assert forall|x: usize| visited@.to_set().contains(x) == entry.to_set().insert(block_id).contains(x) by {
                if x != block_id && visited@.contains(x) {
                    let i = choose|i: int| 0 <= i < visited@.len() && visited@[i] == x;
                    assert(entry[i] == x);
                }
                if entry.contains(x) {
                    let i = choose|i: int| 0 <= i < entry.len() && entry[i] == x;
                    assert(visited@[i] == x);
                }
                if x == block_id && !entry.contains(x) {
                    assert(visited@[entry.len() as int] == x);
                }
            }
            assert(visited@.to_set() =~= entry.to_set().insert(block_id));
        }
        let next = terminator_successors(t);
        let ghost after = visited@;
        let mut k: usize = 0;
        while k < next.len()
            invariant
                k <= next.len(),
                visited@ == after,
                after == (if entry.contains(block_id) {
                    entry
                } else {
                    entry.push(block_id)
                }),
                block_id < self.function.blocks.len(),
                self.function.blocks@[block_id as int].terminator == Some(*t),
                next@ == successors(*t),
                visited@.to_set() == entry.to_set().insert(block_id),
                entry == old(visited)@,
                forall|j: int|
                    0 <= j < k ==> !#[trigger] repeats_via(self.function.blocks@, *t, block_id, entry, j),
            decreases next.len() - k,
        {
            let s = next[k];
            if s == block_id {
                assert(repeats_via(self.function.blocks@, *t, block_id, entry, k as int));
                return true;
            }
            let mut scratch = copy_ids(visited);
            if self.block_can_reach(s, block_id, &mut scratch) {
                assert(repeats_via(self.function.blocks@, *t, block_id, entry, k as int));
                return true;
            }
            k = k + 1;
        }
        false
    }

    /// Block `b` lies below a repeating region: another block that can run
    /// again reaches it.
    pub open spec fn below_repeating_spec(&self, b: usize) -> bool {
        exists|c: usize|
            c < self.function.blocks.len() && c != b && #[trigger] self.can_repeat_spec(c, Seq::empty())
                && reaches(cfg(self.function.blocks@), c, b, Set::empty())
    }

    /// Returns whether block `block_id` is reached from a block that can run
    /// again, so that the structured emitter may place it inside a loop.
    pub fn block_is_reached_from_repeating_region(&self, block_id: usize) -> (r: bool)
        ensures
            r == self.below_repeating_spec(block_id),
    {
        let mut c: usize = 0;
        while c < self.function.blocks.len()
            invariant
                c <= self.function.blocks.len(),
                forall|j: usize|
                    j < c && j != block_id ==> !(#[trigger] self.can_repeat_spec(j, Seq::empty())
                        && reaches(cfg(self.function.blocks@), j, block_id, Set::empty())),
            decreases self.function.blocks.len() - c,
        {
            if c != block_id {
                let mut fresh: Vec<usize> = Vec::new();
                let repeats = self.block_can_repeat(c, &mut fresh);
                if repeats {
                    let mut fresh2: Vec<usize> = Vec::new();
                    proof {
                        assert(fresh2@.to_set() =~= Set::empty());
                    }
                    if self.block_can_reach(c, block_id, &mut fresh2) {
                        assert(self.can_repeat_spec(c, Seq::empty()));
                        return true;
                    }
                }
            }
            c = c + 1;
        }
        false
    }
}

} // verus!
