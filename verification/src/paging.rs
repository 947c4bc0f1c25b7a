//! The arithmetic that addresses a node inside a paged node list.
//!
//! Nodes are numbered densely from zero and stored in pages of a fixed size.
//! Page `p` holds the nodes `p * n .. (p + 1) * n`, where `n` is the number of
//! nodes per page; only the last page may be shorter.

use vstd::prelude::*;
use vstd::arithmetic::div_mod::{
    lemma_fundamental_div_mod,
    lemma_fundamental_div_mod_converse_div,
    lemma_fundamental_div_mod_converse_mod,
    lemma_mod_pos_bound,
};
use crate::cmn::{Node, NodePage};

verus! {

/// The page that holds the node of the given index.
pub open spec fn page_of(node_index: int, nodes_per_page: int) -> int {
    node_index / nodes_per_page
}

/// The place of the node of the given index inside its page.
pub open spec fn offset_of(node_index: int, nodes_per_page: int) -> int {
    node_index % nodes_per_page
}

/// The page that holds the node of the given index.
pub fn get_node_page_index(node_index: usize, nodes_per_page: usize) -> (page: usize)
    requires
        nodes_per_page > 0,
    ensures
        page == page_of(node_index as int, nodes_per_page as int),
{
    node_index / nodes_per_page
}

/// The place of the node of the given index inside its page.
pub fn get_node_index_in_node_page(node_index: usize, nodes_per_page: usize) -> (offset: usize)
    requires
        nodes_per_page > 0,
    ensures
        offset == offset_of(node_index as int, nodes_per_page as int),
        offset < nodes_per_page,
{
    proof {
        lemma_mod_pos_bound(node_index as int, nodes_per_page as int);
    }
    node_index % nodes_per_page
}

/// Page and offset give the index back, and the index they give back has the
/// same page and offset: for every index `i` and every positive page size,
/// `page_of(i) * n + offset_of(i) == i`, the offset lies below `n`, and page
/// and offset of that sum are those of `i`. An index of the first page is its
/// own offset.
pub proof fn lemma_index_round_trip(i: int, n: int)
    requires
        0 <= i,
        0 < n,
    ensures
        page_of(i, n) * n + offset_of(i, n) == i,
        0 <= offset_of(i, n) < n,
        0 <= page_of(i, n),
        page_of(page_of(i, n) * n + offset_of(i, n), n) == page_of(i, n),
        offset_of(page_of(i, n) * n + offset_of(i, n), n) == offset_of(i, n),
        i < n ==> offset_of(page_of(i, n) * n + offset_of(i, n), n) == i,
{
    lemma_fundamental_div_mod(i, n);
    lemma_mod_pos_bound(i, n);
    assert(n * (i / n) == (i / n) * n) by (nonlinear_arith);
    if i / n < 0 {
        assert((i / n) * n <= -n) by (nonlinear_arith)
            requires
                i / n <= -1,
                n > 0,
        ;
    }
    if i < n {
        lemma_fundamental_div_mod_converse_mod(i, n, 0, i);
    }
}

/// Position `o` of page `p` is the index `p * n + o`: page and offset of
/// that index are `p` and `o` again.
pub proof fn lemma_position_round_trip(p: int, o: int, n: int)
    requires
        0 <= p,
        0 <= o < n,
    ensures
        page_of(p * n + o, n) == p,
        offset_of(p * n + o, n) == o,
{
    lemma_fundamental_div_mod_converse_div(p * n + o, n, p, o);
    lemma_fundamental_div_mod_converse_mod(p * n + o, n, p, o);
}

/// All nodes of the pages, page after page.
pub open spec fn concat_pages(pages: Seq<NodePage>) -> Seq<Node>
    decreases pages.len(),
{
    if pages.len() == 0 {
        Seq::<Node>::empty()
    } else {
        concat_pages(pages.drop_last()) + pages.last().nodes@
    }
}

/// Whether the pages are cut as the arithmetic expects: the page size is
/// positive, every page but the last holds exactly that many nodes, and the
/// last one holds no more.
pub open spec fn well_paged(pages: Seq<NodePage>, nodes_per_page: int) -> bool {
    &&& nodes_per_page > 0
    &&& forall|p: int| 0 <= p < pages.len() - 1 ==> (#[trigger] pages[p]).nodes@.len() == nodes_per_page
    &&& pages.len() > 0 ==> pages.last().nodes@.len() <= nodes_per_page
}

/// The node at a position found by the arithmetic, if the pages hold one
/// there.
pub open spec fn node_at(pages: Seq<NodePage>, nodes_per_page: int, node_index: int) -> Option<Node> {
    if nodes_per_page > 0 && 0 <= node_index && page_of(node_index, nodes_per_page) < pages.len() && offset_of(
        node_index,
        nodes_per_page,
    ) < pages[page_of(node_index, nodes_per_page)].nodes@.len() {
        Some(pages[page_of(node_index, nodes_per_page)].nodes@[offset_of(node_index, nodes_per_page)])
    } else {
        None
    }
}

/// Full pages hold `n` nodes each.
proof fn lemma_full_pages_len(pages: Seq<NodePage>, n: int)
    requires
        forall|p: int| 0 <= p < pages.len() ==> (#[trigger] pages[p]).nodes@.len() == n,
    ensures
        concat_pages(pages).len() == pages.len() * n,
    decreases pages.len(),
{
    if pages.len() > 0 {
        let front = pages.drop_last();
        assert forall|p: int| 0 <= p < front.len() implies (#[trigger] front[p]).nodes@.len() == n by {
            assert(front[p] == pages[p]);
        }
        lemma_full_pages_len(front, n);
        assert(front.len() * n + n == pages.len() * n) by (nonlinear_arith)
            requires
                front.len() + 1 == pages.len(),
        ;
    } else {
        assert(pages.len() * n == 0) by (nonlinear_arith)
            requires
                pages.len() == 0,
        ;
    }
}

/// In well-cut pages the nodes before the last page number `n` for each page,
/// and the whole list is those and the last page.
pub proof fn lemma_well_paged_len(pages: Seq<NodePage>, n: int)
    requires
        well_paged(pages, n),
    ensures
        pages.len() == 0 ==> concat_pages(pages).len() == 0,
        pages.len() > 0 ==> concat_pages(pages).len() == (pages.len() - 1) * n + pages.last().nodes@.len(),
{
    if pages.len() > 0 {
        let front = pages.drop_last();
        assert forall|p: int| 0 <= p < front.len() implies (#[trigger] front[p]).nodes@.len() == n by {
            assert(front[p] == pages[p]);
        }
        lemma_full_pages_len(front, n);
    }
}

/// In well-cut pages the arithmetic finds exactly the nodes of the
/// concatenated list, each at its own index: the node at index `i` is the
/// `i`-th node of the list, and there is none from the length of the list on.
pub proof fn lemma_node_at_is_flat_index(pages: Seq<NodePage>, n: int, i: int)
    requires
        well_paged(pages, n),
        0 <= i,
    ensures
        node_at(pages, n, i) == if i < concat_pages(pages).len() {
            Some(concat_pages(pages)[i])
        } else {
            None::<Node>
        },
    decreases pages.len(),
{
    lemma_index_round_trip(i, n);
    lemma_well_paged_len(pages, n);
    let p = page_of(i, n);
    let o = offset_of(i, n);
    if pages.len() == 0 {
    } else {
        let front = pages.drop_last();
        let last = pages.len() - 1;
        assert forall|q: int| 0 <= q < front.len() implies (#[trigger] front[q]).nodes@.len() == n by {
            assert(front[q] == pages[q]);
        }
        lemma_full_pages_len(front, n);
        assert(concat_pages(front).len() == last * n);
        if p < last {
            assert(i < last * n) by (nonlinear_arith)
                requires
                    i == p * n + o,
                    o < n,
                    p + 1 <= last,
                    n > 0,
            ;
            assert(well_paged(front, n)) by {
                if front.len() > 0 {
                    assert(front.last() == pages[front.len() - 1]);
                }
            }
            lemma_node_at_is_flat_index(front, n, i);
            assert(front[p] == pages[p]);
            assert(node_at(front, n, i) == node_at(pages, n, i));
        } else if p == last {
            assert(i - last * n == o);
            if o < pages.last().nodes@.len() {
                assert(concat_pages(pages)[i] == pages.last().nodes@[o]);
            }
        } else {
            assert(i >= pages.len() * n) by (nonlinear_arith)
                requires
                    i == p * n + o,
                    o >= 0,
                    p >= pages.len(),
                    n > 0,
            ;
            assert(pages.len() * n == last * n + n) by (nonlinear_arith)
                requires
                    last + 1 == pages.len(),
            ;
        }
    }
}

} // verus!
