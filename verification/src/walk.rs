//! The walk from the root of a node tree: the check that the child links
//! lead from the root to every node exactly once.

use vstd::prelude::*;
use crate::cmn::Node;
use crate::error::I3SError;
use crate::tree::{check_tree, targets, tree_consistent, tree_verdict};

verus! {

/// Whether following the parent links from node `i` leads to the root in at
/// most `steps` steps.
pub open spec fn climbs_to_root(nodes: Seq<Node>, root: int, i: int, steps: nat) -> bool
    decreases steps,
{
    if i == root {
        true
    } else if steps == 0 {
        false
    } else {
        &&& 0 <= i < nodes.len()
        &&& nodes[i].parent is Some
        &&& climbs_to_root(nodes, root, nodes[i].parent->0 as int, (steps - 1) as nat)
    }
}

/// Whether node `i` hangs below the root: following its parent links leads
/// to the root.
pub open spec fn below_root(nodes: Seq<Node>, root: int, i: int) -> bool {
    exists|steps: nat| climbs_to_root(nodes, root, i, steps)
}

/// Whether every node hangs below the root, so that the links hold no cycle
/// and leave no node aside.
pub open spec fn all_below_root(nodes: Seq<Node>, root: int) -> bool {
    forall|i: int| 0 <= i < nodes.len() ==> #[trigger] below_root(nodes, root, i)
}

/// Whether no node lists a child twice.
pub open spec fn no_child_twice(nodes: Seq<Node>) -> bool {
    forall|i: int, a: int, b: int|
        0 <= i < nodes.len() && 0 <= a < b < nodes[i].children@.len() ==> (#[trigger] nodes[i].children@[a]) != (
        #[trigger] nodes[i].children@[b])
}

/// Whether the list is a tree in which a walk from the root over the child
/// links comes to every node exactly once: every node hangs below the root,
/// and no node lists a child twice.
pub open spec fn walked_once(nodes: Seq<Node>, root: int) -> bool {
    all_below_root(nodes, root) && no_child_twice(nodes)
}

/// What the walk from the root reports: the verdict on the links and, where
/// they are sound, `InvalidReference` where the walk does not come to every
/// node exactly once.
pub open spec fn rooted_verdict(nodes: Seq<Node>, root: int) -> Result<(), I3SError> {
    if tree_verdict(nodes, root) is Err {
        tree_verdict(nodes, root)
    } else if !walked_once(nodes, root) {
        Err(I3SError::InvalidReference)
    } else {
        Ok(())
    }
}

/// The number of marks that are set.
spec fn count_set(marks: Seq<bool>) -> nat
    decreases marks.len(),
{
    if marks.len() == 0 {
        0
    } else if marks.last() {
        count_set(marks.drop_last()) + 1
    } else {
        count_set(marks.drop_last())
    }
}

/// No more marks are set than there are.
proof fn lemma_count_set_bound(marks: Seq<bool>)
    ensures
        count_set(marks) <= marks.len(),
    decreases marks.len(),
{
    if marks.len() > 0 {
        lemma_count_set_bound(marks.drop_last());
    }
}

/// Setting a mark that was not set makes one more.
proof fn lemma_count_set_grows(marks: Seq<bool>, i: int)
    requires
        0 <= i < marks.len(),
        !marks[i],
    ensures
        count_set(marks.update(i, true)) == count_set(marks) + 1,
    decreases marks.len(),
{
    let after = marks.update(i, true);
    if i == marks.len() - 1 {
        assert(after.drop_last() =~= marks.drop_last());
    } else {
        assert(after.drop_last() =~= marks.drop_last().update(i, true));
        lemma_count_set_grows(marks.drop_last(), i);
    }
}

/// Where the root is marked and the children of every marked node are
/// marked, every node below the root is marked.
proof fn lemma_marks_cover(nodes: Seq<Node>, root: int, marks: Seq<bool>, i: int, steps: nat)
    requires
        tree_consistent(nodes, root),
        marks.len() == nodes.len(),
        marks[root],
        forall|p: int, k: int|
            0 <= p < nodes.len() && marks[p] && 0 <= k < nodes[p].children@.len() ==> marks[(
            #[trigger] nodes[p].children@[k]) as int],
        0 <= i < nodes.len(),
        climbs_to_root(nodes, root, i, steps),
    ensures
        marks[i],
    decreases steps,
{
    if i != root {
        let p = nodes[i].parent->0 as int;
        assert(nodes[i].parent is Some);
        lemma_marks_cover(nodes, root, marks, p, (steps - 1) as nat);
        let k = choose|k: int| 0 <= k < nodes[p].children@.len() && nodes[p].children@[k] == i as usize;
        assert(nodes[p].children@.contains(i as usize));
        assert(marks[nodes[p].children@[k] as int]);
    }
}

/// Whether `wanted` is among the first `k` entries of `list`.
spec fn listed_before(list: Seq<usize>, k: int, wanted: usize) -> bool {
    exists|c: int| 0 <= c < k && c < list.len() && list[c] == wanted
}

/// Whether the walk has gone through the children of node `p`: `p` is among
/// the first `head` entries of the order of the walk.
spec fn walked(order: Seq<usize>, head: int, p: usize) -> bool {
    exists|j: int| 0 <= j < head && j < order.len() && order[j] == p
}

/// What holds of a walk in every state: of the marks of the nodes that the
/// walk has come to, of the order in which it came to them, and of `head`,
/// the number of nodes whose children it has gone through.
///
/// The order holds each marked node once; every marked node hangs below the
/// root and, but for the root, was come to from its parent; the children of
/// the first `head` nodes of the order are marked and differ from each
/// other.
#[verifier::opaque]
spec fn walk_inv(nodes: Seq<Node>, root: int, marks: Seq<bool>, order: Seq<usize>, head: int) -> bool {
    &&& tree_consistent(nodes, root)
    &&& marks.len() == nodes.len()
    &&& 0 <= head <= order.len()
    &&& order.len() == count_set(marks)
    &&& marks[root]
    &&& forall|j: int| 0 <= j < order.len() ==> (#[trigger] order[j]) < nodes.len() && marks[order[j] as int]
    &&& forall|j: int, l: int| 0 <= j < l < order.len() ==> (#[trigger] order[j]) != (#[trigger] order[l])
    &&& forall|a: int| 0 <= a < nodes.len() && #[trigger] marks[a] ==> order.contains(a as usize)
    &&& forall|a: int| 0 <= a < nodes.len() && #[trigger] marks[a] ==> below_root(nodes, root, a)
    &&& forall|a: int|
        0 <= a < nodes.len() && #[trigger] marks[a] && a != root ==> nodes[a].parent is Some && walked(
            order,
            head,
            nodes[a].parent->0,
        )
    &&& forall|j: int, k: int|
        0 <= j < head && 0 <= k < nodes[order[j] as int].children@.len() ==> marks[(
        #[trigger] nodes[order[j] as int].children@[k]) as int]
    &&& forall|j: int, a: int, b: int|
        0 <= j < head && 0 <= a < b < nodes[order[j] as int].children@.len() ==> (
        #[trigger] nodes[order[j] as int].children@[a]) != (#[trigger] nodes[order[j] as int].children@[b])
}

/// What holds while the walk goes through the children of the node `at`,
/// which stands at `head` in the order, and has passed the first `k` of
/// them: as `walk_inv`, but that a marked node may also have been come to
/// from `at`, as one of its first `k` children, and that those `k` children
/// are marked and differ from each other.
#[verifier::opaque]
spec fn step_inv(
    nodes: Seq<Node>,
    root: int,
    marks: Seq<bool>,
    order: Seq<usize>,
    head: int,
    k: int,
) -> bool {
    &&& tree_consistent(nodes, root)
    &&& marks.len() == nodes.len()
    &&& 0 <= head < order.len()
    &&& order.len() == count_set(marks)
    &&& marks[root]
    &&& 0 <= k <= nodes[order[head] as int].children@.len()
    &&& forall|j: int| 0 <= j < order.len() ==> (#[trigger] order[j]) < nodes.len() && marks[order[j] as int]
    &&& forall|j: int, l: int| 0 <= j < l < order.len() ==> (#[trigger] order[j]) != (#[trigger] order[l])
    &&& forall|a: int| 0 <= a < nodes.len() && #[trigger] marks[a] ==> order.contains(a as usize)
    &&& forall|a: int| 0 <= a < nodes.len() && #[trigger] marks[a] ==> below_root(nodes, root, a)
    &&& forall|a: int|
        0 <= a < nodes.len() && #[trigger] marks[a] && a != root ==> nodes[a].parent is Some && (walked(
            order,
            head,
            nodes[a].parent->0,
        ) || (nodes[a].parent->0 == order[head] && listed_before(
            nodes[order[head] as int].children@,
            k,
            a as usize,
        )))
    &&& forall|j: int, c: int|
        0 <= j < head && 0 <= c < nodes[order[j] as int].children@.len() ==> marks[(
        #[trigger] nodes[order[j] as int].children@[c]) as int]
    &&& forall|j: int, a: int, b: int|
        0 <= j < head && 0 <= a < b < nodes[order[j] as int].children@.len() ==> (
        #[trigger] nodes[order[j] as int].children@[a]) != (#[trigger] nodes[order[j] as int].children@[b])
    &&& forall|c: int| 0 <= c < k ==> marks[(#[trigger] nodes[order[head] as int].children@[c]) as int]
    &&& forall|a: int, b: int|
        0 <= a < b < k ==> (#[trigger] nodes[order[head] as int].children@[a]) != (
        #[trigger] nodes[order[head] as int].children@[b])
}

/// The walk starts at the root: the root alone is marked and stands alone
/// in the order.
proof fn lemma_walk_start(nodes: Seq<Node>, root: int, blank: Seq<bool>)
    requires
        tree_consistent(nodes, root),
        blank.len() == nodes.len(),
        forall|j: int| 0 <= j < blank.len() ==> !blank[j],
        count_set(blank) == 0,
    ensures
        walk_inv(nodes, root, blank.update(root, true), seq![root as usize], 0),
{
    reveal(walk_inv);
    let marks = blank.update(root, true);
    let order = seq![root as usize];
    lemma_count_set_grows(blank, root);
    assert(climbs_to_root(nodes, root, root, 0));
    assert(below_root(nodes, root, root));
    assert(order[0] == root as usize);
    assert forall|a: int| 0 <= a < nodes.len() && #[trigger] marks[a] implies order.contains(a as usize) by {
        if a != root {
            assert(!blank[a]);
        }
    }
    assert forall|a: int| 0 <= a < nodes.len() && #[trigger] marks[a] implies below_root(nodes, root, a) by {
        if a != root {
            assert(!blank[a]);
        }
    }
    assert forall|a: int| 0 <= a < nodes.len() && #[trigger] marks[a] && a != root implies nodes[a].parent is Some
        && walked(order, 0, nodes[a].parent->0) by {
        assert(!blank[a]);
    }
}

/// In every state of the walk the order is no longer than the list, and
/// the node at `head`, if there is one, is a node of the list.
proof fn lemma_walk_bounds(nodes: Seq<Node>, root: int, marks: Seq<bool>, order: Seq<usize>, head: int)
    requires
        walk_inv(nodes, root, marks, order, head),
    ensures
        order.len() <= nodes.len(),
        0 <= head <= order.len(),
        head < order.len() ==> order[head] < nodes.len(),
{
    reveal(walk_inv);
    lemma_count_set_bound(marks);
}

/// The walk turns to the children of the node at `head`.
proof fn lemma_step_start(nodes: Seq<Node>, root: int, marks: Seq<bool>, order: Seq<usize>, head: int)
    requires
        walk_inv(nodes, root, marks, order, head),
        head < order.len(),
    ensures
        step_inv(nodes, root, marks, order, head, 0),
{
    reveal(walk_inv);
    reveal(step_inv);
}

/// The child that the walk stands before is a node of the list.
proof fn lemma_step_child(nodes: Seq<Node>, root: int, marks: Seq<bool>, order: Seq<usize>, head: int, k: int)
    requires
        step_inv(nodes, root, marks, order, head, k),
        k < nodes[order[head] as int].children@.len(),
    ensures
        order[head] < nodes.len(),
        marks.len() == nodes.len(),
        nodes[order[head] as int].children@[k] < nodes.len(),
{
    reveal(step_inv);
}

/// A child that is marked already when the walk comes to it is listed
/// twice by its parent.
proof fn lemma_step_twice(nodes: Seq<Node>, root: int, marks: Seq<bool>, order: Seq<usize>, head: int, k: int)
    requires
        step_inv(nodes, root, marks, order, head, k),
        k < nodes[order[head] as int].children@.len(),
        marks[nodes[order[head] as int].children@[k] as int],
    ensures
        !no_child_twice(nodes),
{
    reveal(step_inv);
    let at = order[head];
    let list = nodes[at as int].children@;
    let child = list[k];
    assert(nodes[child as int].parent == Some(at));
    assert(child != root);
    assert(marks[child as int]);
    if walked(order, head, at) {
        let j = choose|j: int| 0 <= j < head && j < order.len() && order[j] == at;
        assert(order[j] != order[head]);
    }
    assert(listed_before(list, k, child));
    let c = choose|c: int| 0 <= c < k && c < list.len() && list[c] == child;
    assert(nodes[at as int].children@[c] == nodes[at as int].children@[k]);
}

/// The walk comes to a child that is not marked yet: it marks the child and
/// puts it at the end of the order.
proof fn lemma_step_push(nodes: Seq<Node>, root: int, marks: Seq<bool>, order: Seq<usize>, head: int, k: int)
    requires
        step_inv(nodes, root, marks, order, head, k),
        k < nodes[order[head] as int].children@.len(),
        !marks[nodes[order[head] as int].children@[k] as int],
    ensures
        step_inv(
            nodes,
            root,
            marks.update(nodes[order[head] as int].children@[k] as int, true),
            order.push(nodes[order[head] as int].children@[k]),
            head,
            k + 1,
        ),
{
    reveal(step_inv);
    let at = order[head];
    let list = nodes[at as int].children@;
    let child = list[k];
    let after = marks.update(child as int, true);
    let queue = order.push(child);
    assert(child < nodes.len());
    assert(nodes[child as int].parent == Some(at));
    lemma_count_set_grows(marks, child as int);
    assert(marks[at as int]);
    let steps = choose|steps: nat| climbs_to_root(nodes, root, at as int, steps);
    assert(below_root(nodes, root, at as int));
    assert(climbs_to_root(nodes, root, child as int, steps + 1));
    assert(below_root(nodes, root, child as int));
    assert(queue[head] == at);
    assert forall|j: int| 0 <= j < queue.len() implies (#[trigger] queue[j]) < nodes.len() && after[queue[j] as int] by {
        if j < order.len() {
            assert(queue[j] == order[j]);
            assert(marks[order[j] as int]);
        }
    }
    assert forall|j: int, l: int| 0 <= j < l < queue.len() implies (#[trigger] queue[j]) != (#[trigger] queue[l]) by {
        assert(queue[j] == order[j]);
        if l < order.len() {
            assert(queue[l] == order[l]);
        } else {
            assert(marks[order[j] as int]);
        }
    }
    assert forall|a: int| 0 <= a < nodes.len() && #[trigger] after[a] implies queue.contains(a as usize) by {
        if a == child {
            assert(queue[order.len() as int] == child);
        } else {
            assert(marks[a]);
            assert(order.contains(a as usize));
            let j = choose|j: int| 0 <= j < order.len() && order[j] == a as usize;
            assert(queue[j] == a as usize);
        }
    }
    assert forall|a: int| 0 <= a < nodes.len() && #[trigger] after[a] implies below_root(nodes, root, a) by {
        if a != child {
            assert(marks[a]);
        }
    }
    assert forall|a: int| 0 <= a < nodes.len() && #[trigger] after[a] && a != root implies nodes[a].parent is Some
        && (walked(queue, head, nodes[a].parent->0) || (nodes[a].parent->0 == queue[head] && listed_before(
        nodes[queue[head] as int].children@,
        k + 1,
        a as usize,
    ))) by {
        if a == child {
            assert(list[k] == child);
            assert(listed_before(list, k + 1, child));
        } else {
            assert(marks[a]);
            let p = nodes[a].parent->0;
            if walked(order, head, p) {
                let j = choose|j: int| 0 <= j < head && j < order.len() && order[j] == p;
                assert(queue[j] == p);
                assert(walked(queue, head, p));
            } else {
                assert(listed_before(list, k, a as usize));
                let c = choose|c: int| 0 <= c < k && c < list.len() && list[c] == a as usize;
                assert(listed_before(list, k + 1, a as usize));
            }
        }
    }
    assert forall|j: int, c: int|
        0 <= j < head && 0 <= c < nodes[queue[j] as int].children@.len() implies after[(
    #[trigger] nodes[queue[j] as int].children@[c]) as int] by {
        assert(queue[j] == order[j]);
        assert(marks[nodes[order[j] as int].children@[c] as int]);
    }
    assert forall|j: int, a: int, b: int|
        0 <= j < head && 0 <= a < b < nodes[queue[j] as int].children@.len() implies (
    #[trigger] nodes[queue[j] as int].children@[a]) != (#[trigger] nodes[queue[j] as int].children@[b]) by {
        assert(queue[j] == order[j]);
    }
    assert forall|c: int| 0 <= c < k + 1 implies after[(#[trigger] nodes[queue[head] as int].children@[c]) as int] by {
        if c < k {
            assert(marks[list[c] as int]);
        }
    }
    assert forall|a: int, b: int| 0 <= a < b < k + 1 implies (#[trigger] nodes[queue[head] as int].children@[a]) != (
    #[trigger] nodes[queue[head] as int].children@[b]) by {
        if b == k {
            assert(marks[list[a] as int]);
        }
    }
}

/// The walk has gone through all children of the node at `head` and turns
/// to the next node of the order.
proof fn lemma_step_end(nodes: Seq<Node>, root: int, marks: Seq<bool>, order: Seq<usize>, head: int, k: int)
    requires
        step_inv(nodes, root, marks, order, head, k),
        k == nodes[order[head] as int].children@.len(),
    ensures
        walk_inv(nodes, root, marks, order, head + 1),
{
    reveal(walk_inv);
    reveal(step_inv);
    let at = order[head];
    let list = nodes[at as int].children@;
    assert forall|a: int| 0 <= a < nodes.len() && #[trigger] marks[a] && a != root implies nodes[a].parent is Some
        && walked(order, head + 1, nodes[a].parent->0) by {
        let p = nodes[a].parent->0;
        if walked(order, head, p) {
            let j = choose|j: int| 0 <= j < head && j < order.len() && order[j] == p;
            assert(0 <= j < head + 1 && order[j] == p);
        } else {
            assert(order[head] == p);
        }
    }
    assert forall|j: int, c: int|
        0 <= j < head + 1 && 0 <= c < nodes[order[j] as int].children@.len() implies marks[(
    #[trigger] nodes[order[j] as int].children@[c]) as int] by {
        if j == head {
            assert(marks[list[c] as int]);
        }
    }
    assert forall|j: int, a: int, b: int|
        0 <= j < head + 1 && 0 <= a < b < nodes[order[j] as int].children@.len() implies (
    #[trigger] nodes[order[j] as int].children@[a]) != (#[trigger] nodes[order[j] as int].children@[b]) by {
        if j == head {
            assert(list[a] != list[b]);
        }
    }
}

/// At the end of the walk, when it has gone through the children of all
/// nodes that it came to, it has come to every node exactly once if and
/// only if every node is marked.
proof fn lemma_walk_end(nodes: Seq<Node>, root: int, marks: Seq<bool>, order: Seq<usize>)
    requires
        walk_inv(nodes, root, marks, order, order.len() as int),
    ensures
        walked_once(nodes, root) <==> forall|a: int| 0 <= a < marks.len() ==> marks[a],
{
    reveal(walk_inv);
    if forall|a: int| 0 <= a < marks.len() ==> marks[a] {
        assert forall|a: int| 0 <= a < nodes.len() implies #[trigger] below_root(nodes, root, a) by {
            assert(marks[a]);
        }
        assert forall|p: int, a: int, b: int|
            0 <= p < nodes.len() && 0 <= a < b < nodes[p].children@.len() implies (
        #[trigger] nodes[p].children@[a]) != (#[trigger] nodes[p].children@[b]) by {
            assert(marks[p]);
            assert(order.contains(p as usize));
            let j = choose|j: int| 0 <= j < order.len() && order[j] == p as usize;
            assert(nodes[order[j] as int].children@[a] != nodes[order[j] as int].children@[b]);
        }
    } else {
        let i = choose|i: int| 0 <= i < marks.len() && !marks[i];
        assert forall|p: int, c: int|
            0 <= p < nodes.len() && marks[p] && 0 <= c < nodes[p].children@.len() implies marks[(
        #[trigger] nodes[p].children@[c]) as int] by {
            assert(order.contains(p as usize));
            let j = choose|j: int| 0 <= j < order.len() && order[j] == p as usize;
            assert(marks[nodes[order[j] as int].children@[c] as int]);
        }
        if below_root(nodes, root, i) {
            let steps = choose|steps: nat| climbs_to_root(nodes, root, i, steps);
            lemma_marks_cover(nodes, root, marks, i, steps);
        }
        assert(!below_root(nodes, root, i));
    }
}

/// As many marks as asked for, none of them set.
fn unmarked(n: usize) -> (marks: Vec<bool>)
    ensures
        marks@.len() == n,
        count_set(marks@) == 0,
        forall|j: int| 0 <= j < n ==> !marks@[j],
{
    let mut marks: Vec<bool> = Vec::new();
    let mut i: usize = 0;
    while i < n
        invariant
            i <= n,
            marks@.len() == i,
            count_set(marks@) == 0,
            forall|j: int| 0 <= j < i ==> !marks@[j],
        decreases n - i,
    {
        let ghost before = marks@;
        marks.push(false);
        assert(marks@.drop_last() =~= before);
        i = i + 1;
    }
    marks
}

/// Whether all marks are set.
fn all_marked(marks: &Vec<bool>) -> (ok: bool)
    ensures
        ok == forall|a: int| 0 <= a < marks@.len() ==> marks@[a],
{
    let mut i: usize = 0;
    while i < marks.len()
        invariant
            i <= marks@.len(),
            forall|a: int| 0 <= a < i ==> marks@[a],
        decreases marks@.len() - i,
    {
        if !marks[i] {
            return false;
        }
        i = i + 1;
    }
    true
}

/// Whether a walk from the root over the child links comes to every node
/// exactly once.
fn walk_from_root(nodes: &Vec<&Node>, root_index: usize) -> (ok: bool)
    requires
        tree_consistent(targets(nodes@), root_index as int),
    ensures
        ok == walked_once(targets(nodes@), root_index as int),
{
    let n: usize = nodes.len();
    let ghost flat = targets(nodes@);
    let ghost root = root_index as int;
    let mut seen: Vec<bool> = unmarked(n);
    let mut order: Vec<usize> = Vec::new();
    proof {
        lemma_walk_start(flat, root, seen@);
    }
    seen.set(root_index, true);
    order.push(root_index);
    assert(order@ =~= seq![root_index]);
    let mut head: usize = 0;
    while head < order.len()
        invariant
            n == nodes.len(),
            flat == targets(nodes@),
            root == root_index,
            seen@.len() == n,
            head <= order@.len(),
            walk_inv(flat, root, seen@, order@, head as int),
        decreases n - head,
    {
        proof {
            lemma_walk_bounds(flat, root, seen@, order@, head as int);
            lemma_step_start(flat, root, seen@, order@, head as int);
        }
        let at: usize = order[head];
        let node: &Node = nodes[at];
        assert(*node == flat[at as int]);
        let count: usize = node.children.len();
        let mut k: usize = 0;
        while k < count
            invariant
                n == nodes.len(),
                flat == targets(nodes@),
                root == root_index,
                seen@.len() == n,
                head < order@.len(),
                at == order@[head as int],
                at < n,
                *node == flat[at as int],
                count == node.children@.len(),
                k <= count,
                step_inv(flat, root, seen@, order@, head as int, k as int),
            decreases count - k,
        {
            let child: usize = node.children[k];
            proof {
                lemma_step_child(flat, root, seen@, order@, head as int, k as int);
            }
            if seen[child] {
                proof {
                    lemma_step_twice(flat, root, seen@, order@, head as int, k as int);
                }
                return false;
            }
            proof {
                lemma_step_push(flat, root, seen@, order@, head as int, k as int);
            }
            seen.set(child, true);
            order.push(child);
            k = k + 1;
        }
        proof {
            lemma_step_end(flat, root, seen@, order@, head as int, k as int);
        }
        head = head + 1;
    }
    proof {
        lemma_walk_end(flat, root, seen@, order@);
    }
    all_marked(&seen)
}

/// Checks that a flat node list is a tree under the given root index: that
/// its links are sound, as `check_tree` checks them, and that a walk from
/// the root over the child links comes to every node exactly once. The walk
/// takes one step for each node and each child link.
///
/// The failures of `check_tree` are reported as they are; where the links
/// are sound, `InvalidReference` is reported where a node does not hang
/// below the root or a node lists a child twice.
pub fn check_rooted(nodes: &Vec<&Node>, root_index: usize) -> (r: Result<(), I3SError>)
    ensures
        r == rooted_verdict(targets(nodes@), root_index as int),
        r is Ok <==> tree_consistent(targets(nodes@), root_index as int) && walked_once(
            targets(nodes@),
            root_index as int,
        ),
{
    match check_tree(nodes, root_index) {
        Err(e) => Err(e),
        Ok(()) => {
            if walk_from_root(nodes, root_index) {
                Ok(())
            } else {
                Err(I3SError::InvalidReference)
            }
        },
    }
}

} // verus!
