//! The tree that the parent and child links of a flat node list describe,
//! and the check that the links are sound.

use vstd::prelude::*;
use crate::cmn::Node;
use crate::error::I3SError;

verus! {

/// The nodes that a list of references points to.
pub open spec fn targets(refs: Seq<&Node>) -> Seq<Node> {
    Seq::new(refs.len(), |i: int| *refs[i])
}

/// Whether every index that the list mentions names one of its nodes: the
/// root index, each child of each node, and each parent.
pub open spec fn references_in_range(nodes: Seq<Node>, root: int) -> bool {
    &&& 0 <= root < nodes.len()
    &&& forall|i: int, k: int|
        0 <= i < nodes.len() && 0 <= k < nodes[i].children@.len() ==> (#[trigger] nodes[i].children@[k])
            < nodes.len()
    &&& forall|i: int|
        0 <= i < nodes.len() && (#[trigger] nodes[i]).parent is Some ==> nodes[i].parent->0 < nodes.len()
}

/// Whether the node at the root index is the one node without a parent.
pub open spec fn single_root(nodes: Seq<Node>, root: int) -> bool {
    &&& nodes[root].parent is None
    &&& forall|i: int| 0 <= i < nodes.len() && (#[trigger] nodes[i]).parent is None ==> i == root
}

/// Whether the records agree with each other: each node carries the index of
/// its place in the list, each child names the node that lists it as its
/// parent, and each node with a parent is among that parent's children.
pub open spec fn links_agree(nodes: Seq<Node>) -> bool {
    &&& forall|i: int| 0 <= i < nodes.len() ==> (#[trigger] nodes[i]).index == i
    &&& forall|i: int, k: int|
        0 <= i < nodes.len() && 0 <= k < nodes[i].children@.len() ==> nodes[(#[trigger] nodes[i].children@[k]) as int].parent
            == Some(i as usize)
    &&& forall|i: int|
        0 <= i < nodes.len() && (#[trigger] nodes[i]).parent is Some ==> nodes[nodes[i].parent->0 as int].children@.contains(
            i as usize,
        )
}

/// Whether the list is a sound tree under the given root.
pub open spec fn tree_consistent(nodes: Seq<Node>, root: int) -> bool {
    &&& references_in_range(nodes, root)
    &&& single_root(nodes, root)
    &&& links_agree(nodes)
}

/// What the check of a node list reports: `IndexOutOfBounds` where an index
/// names no node; else `InvalidRoot` where the root index does not name the
/// one parentless node; else `InvalidReference` where the records disagree.
pub open spec fn tree_verdict(nodes: Seq<Node>, root: int) -> Result<(), I3SError> {
    if !references_in_range(nodes, root) {
        Err(I3SError::IndexOutOfBounds)
    } else if !single_root(nodes, root) {
        Err(I3SError::InvalidRoot)
    } else if !links_agree(nodes) {
        Err(I3SError::InvalidReference)
    } else {
        Ok(())
    }
}

/// The tree invariant. In a sound tree every node but the root is among the
/// children of its parent, and every child of a node names that node as its
/// parent.
pub proof fn lemma_tree_invariant(nodes: Seq<Node>, root: int, n: int)
    requires
        tree_consistent(nodes, root),
        0 <= n < nodes.len(),
    ensures
        n != root ==> nodes[n].parent is Some,
        nodes[n].parent is Some ==> nodes[n].parent->0 < nodes.len() && nodes[nodes[n].parent->0 as int].children@.contains(
            nodes[n].index,
        ),
        forall|k: int|
            0 <= k < nodes[n].children@.len() ==> (#[trigger] nodes[n].children@[k]) < nodes.len()
                && nodes[nodes[n].children@[k] as int].parent == Some(nodes[n].index),
{
}

/// In a sound tree exactly one node has no parent, and its index is the root
/// index.
pub proof fn lemma_single_root(nodes: Seq<Node>, root: int, n: int)
    requires
        tree_consistent(nodes, root),
        0 <= n < nodes.len(),
    ensures
        0 <= root < nodes.len(),
        nodes[root].parent is None,
        nodes[root].index == root,
        nodes[n].parent is None <==> n == root,
        nodes[n].parent is None <==> nodes[n].index == root,
{
}

/// A child index beyond the nodes of the list is reported as
/// `IndexOutOfBounds`, whatever else the list holds.
pub proof fn lemma_child_out_of_range(nodes: Seq<Node>, root: int, i: int, k: int)
    requires
        0 <= i < nodes.len(),
        0 <= k < nodes[i].children@.len(),
        nodes[i].children@[k] >= nodes.len(),
    ensures
        tree_verdict(nodes, root) == Err::<(), I3SError>(I3SError::IndexOutOfBounds),
{
}

/// Whether every index that the list mentions names one of its nodes.
fn check_references(nodes: &Vec<&Node>, root_index: usize) -> (ok: bool)
    ensures
        ok == references_in_range(targets(nodes@), root_index as int),
{
    let n: usize = nodes.len();
    let ghost flat = targets(nodes@);
    if root_index >= n {
        return false;
    }
    let mut i: usize = 0;
    while i < n
        invariant
            i <= n,
            n == nodes.len(),
            flat == targets(nodes@),
            root_index < n,
            forall|a: int, k: int|
                0 <= a < i && 0 <= k < flat[a].children@.len() ==> (#[trigger] flat[a].children@[k]) < n,
            forall|a: int| 0 <= a < i && (#[trigger] flat[a]).parent is Some ==> flat[a].parent->0 < n,
        decreases n - i,
    {
        let node: &Node = nodes[i];
        assert(*node == flat[i as int]);
        match node.parent {
            Some(p) => {
                if p >= n {
                    return false;
                }
            },
            None => {},
        }
        let count: usize = node.children.len();
        let mut k: usize = 0;
        while k < count
            invariant
                k <= count,
                count == node.children@.len(),
                i < n,
                n == nodes.len(),
                flat == targets(nodes@),
                *node == flat[i as int],
                forall|j: int| 0 <= j < k ==> (#[trigger] node.children@[j]) < n,
            decreases count - k,
        {
            if node.children[k] >= n {
                assert(!(flat[i as int].children@[k as int] < n));
                return false;
            }
            k = k + 1;
        }
        i = i + 1;
    }
    true
}

/// Whether the node at the root index is the one node without a parent.
fn check_root(nodes: &Vec<&Node>, root_index: usize) -> (ok: bool)
    requires
        root_index < nodes.len(),
    ensures
        ok == single_root(targets(nodes@), root_index as int),
{
    let n: usize = nodes.len();
    let ghost flat = targets(nodes@);
    let root: &Node = nodes[root_index];
    assert(*root == flat[root_index as int]);
    if root.parent.is_some() {
        return false;
    }
    let mut i: usize = 0;
    while i < n
        invariant
            i <= n,
            n == nodes.len(),
            flat == targets(nodes@),
            forall|a: int| 0 <= a < i && (#[trigger] flat[a]).parent is None ==> a == root_index,
        decreases n - i,
    {
        let node: &Node = nodes[i];
        assert(*node == flat[i as int]);
        if node.parent.is_none() && i != root_index {
            return false;
        }
        i = i + 1;
    }
    true
}

/// Whether `wanted` is among `list`.
fn holds_index(list: &Vec<usize>, wanted: usize) -> (found: bool)
    ensures
        found == list@.contains(wanted),
{
    let mut k: usize = 0;
    while k < list.len()
        invariant
            k <= list.len(),
            forall|j: int| 0 <= j < k ==> list@[j] != wanted,
        decreases list.len() - k,
    {
        if list[k] == wanted {
            return true;
        }
        k = k + 1;
    }
    false
}

/// Whether the records of the list agree with each other.
fn check_links(nodes: &Vec<&Node>, root_index: usize) -> (ok: bool)
    requires
        references_in_range(targets(nodes@), root_index as int),
    ensures
        ok == links_agree(targets(nodes@)),
{
    let n: usize = nodes.len();
    let ghost flat = targets(nodes@);
    let mut i: usize = 0;
    while i < n
        invariant
            i <= n,
            n == nodes.len(),
            flat == targets(nodes@),
            references_in_range(flat, root_index as int),
            forall|a: int| 0 <= a < i ==> (#[trigger] flat[a]).index == a,
            forall|a: int, k: int|
                0 <= a < i && 0 <= k < flat[a].children@.len() ==> flat[(#[trigger] flat[a].children@[k]) as int].parent
                    == Some(a as usize),
            forall|a: int|
                0 <= a < i && (#[trigger] flat[a]).parent is Some ==> flat[flat[a].parent->0 as int].children@.contains(
                    a as usize,
                ),
        decreases n - i,
    {
        let node: &Node = nodes[i];
        assert(*node == flat[i as int]);
        if node.index != i {
            return false;
        }
        match node.parent {
            Some(p) => {
                let parent: &Node = nodes[p];
                assert(*parent == flat[p as int]);
                if !holds_index(&parent.children, i) {
                    return false;
                }
            },
            None => {},
        }
        let count: usize = node.children.len();
        let mut k: usize = 0;
        while k < count
            invariant
                k <= count,
                count == node.children@.len(),
                i < n,
                n == nodes.len(),
                flat == targets(nodes@),
                *node == flat[i as int],
                references_in_range(flat, root_index as int),
                forall|j: int|
                    0 <= j < k ==> flat[(#[trigger] node.children@[j]) as int].parent == Some(i),
            decreases count - k,
        {
            let c: usize = node.children[k];
            assert(c == flat[i as int].children@[k as int]);
            let child: &Node = nodes[c];
            assert(*child == flat[c as int]);
            let named: bool = match child.parent {
                Some(p) => p == i,
                None => false,
            };
            if !named {
                assert(flat[flat[i as int].children@[k as int] as int].parent != Some(i));
                return false;
            }
            k = k + 1;
        }
        i = i + 1;
    }
    true
}

/// Checks that a flat node list is a sound tree under the given root index.
///
/// `IndexOutOfBounds` is reported where the root index, a child or a parent
/// names no node of the list; else `InvalidRoot` where the node at the root
/// index has a parent or another node has none; else `InvalidReference` where
/// a node does not carry the index of its place, a child does not name the
/// node that lists it, or a node is missing among its parent's children.
pub fn check_tree(nodes: &Vec<&Node>, root_index: usize) -> (r: Result<(), I3SError>)
    ensures
        r == tree_verdict(targets(nodes@), root_index as int),
        r is Ok <==> tree_consistent(targets(nodes@), root_index as int),
{
    if !check_references(nodes, root_index) {
        Err(I3SError::IndexOutOfBounds)
    } else if !check_root(nodes, root_index) {
        Err(I3SError::InvalidRoot)
    } else if !check_links(nodes, root_index) {
        Err(I3SError::InvalidReference)
    } else {
        Ok(())
    }
}

} // verus!
