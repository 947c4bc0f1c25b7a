use i3s::cmn::{Node, NodePage, NodePageDefinition, OBB};
use i3s::error::I3SError;
use i3s::paging::{get_node_index_in_node_page, get_node_page_index};
use i3s::tree::check_tree;
use i3s::walk::check_rooted;
use i3s::IntegratedMesh;

fn node(index: usize, parent: Option<usize>, children: &[usize]) -> Node {
    Node {
        index,
        obb: OBB::default(),
        children: children.to_vec(),
        parent,
        lod_threshold: None,
        mesh: None,
        geometry: Vec::new(),
        texture: Vec::new(),
    }
}

fn definition(nodes_per_page: u32, root_index: usize) -> NodePageDefinition {
    NodePageDefinition { nodes_per_page, lod_selection_metric_type: "maxScreenThresholdSQ".to_string(), root_index }
}

fn paged(nodes: Vec<Node>, nodes_per_page: usize) -> Vec<NodePage> {
    let mut pages: Vec<NodePage> = Vec::new();
    for node in nodes {
        if pages.last().map_or(true, |page| page.nodes.len() == nodes_per_page) {
            pages.push(NodePage { nodes: Vec::new() });
        }
        pages.last_mut().unwrap().nodes.push(node);
    }
    pages
}

fn five_nodes() -> Vec<Node> {
    vec![
        node(0, None, &[1, 2]),
        node(1, Some(0), &[]),
        node(2, Some(0), &[3, 4]),
        node(3, Some(2), &[]),
        node(4, Some(2), &[]),
    ]
}

fn mesh_of(nodes: Vec<Node>, nodes_per_page: u32, root_index: usize) -> IntegratedMesh {
    IntegratedMesh::new(paged(nodes, nodes_per_page as usize), &definition(nodes_per_page, root_index)).unwrap()
}

fn verdict(nodes: &[Node], root_index: usize) -> Result<(), I3SError> {
    let refs: Vec<&Node> = nodes.iter().collect();
    check_tree(&refs, root_index)
}

fn rooted(nodes: &[Node], root_index: usize) -> Result<(), I3SError> {
    let refs: Vec<&Node> = nodes.iter().collect();
    check_rooted(&refs, root_index)
}

#[test]
fn page_and_offset_of_an_index() {
    assert_eq!(get_node_page_index(4, 2), 2);
    assert_eq!(get_node_index_in_node_page(4, 2), 0);
    assert_eq!(get_node_page_index(0, 64), 0);
    assert_eq!(get_node_index_in_node_page(0, 64), 0);
    assert_eq!(get_node_page_index(63, 64), 0);
    assert_eq!(get_node_index_in_node_page(63, 64), 63);
    assert_eq!(get_node_page_index(64, 64), 1);
    assert_eq!(get_node_index_in_node_page(64, 64), 0);
    assert_eq!(get_node_page_index(1000, 64), 15);
    assert_eq!(get_node_index_in_node_page(1000, 64), 40);
}

#[test]
fn page_and_offset_give_the_index_back() {
    for nodes_per_page in [1usize, 2, 3, 7, 64] {
        for index in 0usize..300 {
            let page = get_node_page_index(index, nodes_per_page);
            let offset = get_node_index_in_node_page(index, nodes_per_page);
            assert!(offset < nodes_per_page);
            assert_eq!(page * nodes_per_page + offset, index);
        }
    }
}

#[test]
fn page_arithmetic_is_exact_for_large_indices() {
    assert_eq!(get_node_page_index(16_777_217, 1), 16_777_217);
    assert_eq!(get_node_index_in_node_page(16_777_217, 2), 1);
    assert_eq!(get_node_page_index(usize::MAX, usize::MAX), 1);
    assert_eq!(get_node_index_in_node_page(usize::MAX, usize::MAX), 0);
}

#[test]
fn five_nodes_in_three_pages() {
    let mesh = mesh_of(five_nodes(), 2, 0);
    assert_eq!(mesh.node_pages().len(), 3);
    assert_eq!(mesh.node_pages()[2].nodes.len(), 1);
    assert_eq!(mesh.nodes_per_page(), 2);
    assert_eq!(mesh.root_index(), 0);

    assert_eq!(get_node_page_index(4, mesh.nodes_per_page()), 2);
    assert_eq!(get_node_index_in_node_page(4, mesh.nodes_per_page()), 0);
    let fourth = mesh.node(&4).unwrap();
    assert_eq!(fourth.index, 4);
    assert_eq!(fourth.parent, Some(2));

    let root = mesh.root().unwrap();
    let first = mesh.node(&0).unwrap();
    assert_eq!(root.index, first.index);
    assert_eq!(root.children, first.children);
    assert!(root.is_root());

    let children: Vec<usize> = mesh.children(first).unwrap().iter().map(|child| child.index).collect();
    assert_eq!(children, vec![1, 2]);

    assert_eq!(mesh.check_integrity(), Ok(()));
}

#[test]
fn every_node_is_found_at_its_index() {
    let mesh = mesh_of(five_nodes(), 2, 0);
    for index in 0usize..5 {
        assert_eq!(mesh.node(&index).unwrap().index, index);
    }
    let all: Vec<usize> = mesh.all_nodes().iter().map(|node| node.index).collect();
    assert_eq!(all, vec![0, 1, 2, 3, 4]);
}

#[test]
fn lookup_is_stable() {
    let mesh = mesh_of(five_nodes(), 2, 0);
    for index in 0usize..8 {
        let first = mesh.node(&index).map(|node| (node.index, node.parent, node.children.clone()));
        let second = mesh.node(&index).map(|node| (node.index, node.parent, node.children.clone()));
        assert_eq!(first, second);
    }
}

#[test]
fn index_beyond_the_nodes_is_out_of_bounds() {
    let mesh = mesh_of(five_nodes(), 2, 0);
    assert_eq!(mesh.node(&5).err(), Some(I3SError::IndexOutOfBounds));
    assert_eq!(mesh.node(&6).err(), Some(I3SError::IndexOutOfBounds));
    assert_eq!(mesh.node(&usize::MAX).err(), Some(I3SError::IndexOutOfBounds));
}

#[test]
fn empty_store_holds_no_node() {
    let mesh = IntegratedMesh::new(Vec::new(), &definition(64, 0)).unwrap();
    assert_eq!(mesh.node(&0).err(), Some(I3SError::IndexOutOfBounds));
    assert_eq!(mesh.root().err(), Some(I3SError::IndexOutOfBounds));
    assert!(mesh.all_nodes().is_empty());
    assert_eq!(mesh.check_integrity(), Err(I3SError::IndexOutOfBounds));
}

#[test]
fn default_store_is_empty() {
    let mesh = IntegratedMesh::default();
    assert_eq!(mesh.nodes_per_page(), 64);
    assert_eq!(mesh.root_index(), 0);
    assert!(mesh.node_pages().is_empty());
    assert_eq!(mesh.node(&0).err(), Some(I3SError::IndexOutOfBounds));
    assert_eq!(mesh.root().err(), Some(I3SError::IndexOutOfBounds));
    assert_eq!(mesh.check_integrity(), Err(I3SError::IndexOutOfBounds));
}

#[test]
fn page_size_zero_is_refused() {
    let pages = paged(five_nodes(), 2);
    assert_eq!(IntegratedMesh::new(pages, &definition(0, 0)).err(), Some(I3SError::Decode));
    assert_eq!(IntegratedMesh::new(Vec::new(), &definition(0, 0)).err(), Some(I3SError::Decode));
}

#[test]
fn short_page_before_the_last_is_refused() {
    let mut pages = paged(five_nodes(), 2);
    pages.swap(1, 2);
    assert_eq!(IntegratedMesh::new(pages, &definition(2, 0)).err(), Some(I3SError::Decode));
}

#[test]
fn over_full_page_is_refused() {
    let pages = paged(five_nodes(), 3);
    assert_eq!(IntegratedMesh::new(pages, &definition(2, 0)).err(), Some(I3SError::Decode));
}

#[test]
fn full_last_page_is_accepted() {
    let mut nodes = five_nodes();
    nodes.pop();
    nodes[2].children.pop();
    let mesh = mesh_of(nodes, 2, 0);
    assert_eq!(mesh.node_pages().len(), 2);
    assert_eq!(mesh.node(&3).unwrap().index, 3);
    assert_eq!(mesh.node(&4).err(), Some(I3SError::IndexOutOfBounds));
    assert_eq!(mesh.check_integrity(), Ok(()));
}

#[test]
fn empty_last_page_is_accepted() {
    let mut pages = paged(five_nodes(), 5);
    pages.push(NodePage { nodes: Vec::new() });
    let mesh = IntegratedMesh::new(pages, &definition(5, 0)).unwrap();
    assert_eq!(mesh.all_nodes().len(), 5);
    assert_eq!(mesh.node(&4).unwrap().index, 4);
    assert_eq!(mesh.node(&5).err(), Some(I3SError::IndexOutOfBounds));
}

#[test]
fn pages_that_do_not_fit_the_page_size_are_refused() {
    let mut pages = paged(five_nodes(), 2);
    pages[0].nodes.pop();
    assert_eq!(IntegratedMesh::new(pages, &definition(2, 0)).err(), Some(I3SError::Decode));
}

#[test]
fn several_nodes_are_found_in_the_order_asked_for() {
    let mesh = mesh_of(five_nodes(), 2, 0);
    let found: Vec<usize> = mesh.nodes(&[4, 0, 2, 2]).unwrap().iter().map(|node| node.index).collect();
    assert_eq!(found, vec![4, 0, 2, 2]);
    assert!(mesh.nodes(&[]).unwrap().is_empty());
    assert_eq!(mesh.nodes(&[1, 5, 2]).err(), Some(I3SError::IndexOutOfBounds));
}

#[test]
fn leaf_has_no_children() {
    let mesh = mesh_of(five_nodes(), 2, 0);
    let leaf = mesh.node(&1).unwrap();
    assert!(leaf.is_leaf());
    assert!(!leaf.is_root());
    assert!(mesh.children(leaf).unwrap().is_empty());
    let inner = mesh.node(&2).unwrap();
    assert!(!inner.is_leaf());
    let children: Vec<usize> = mesh.children(inner).unwrap().iter().map(|child| child.index).collect();
    assert_eq!(children, vec![3, 4]);
}

#[test]
fn child_beyond_the_nodes_fails_the_check() {
    let mut nodes = five_nodes();
    nodes[3].children.push(9);
    let mesh = mesh_of(nodes, 2, 0);
    assert_eq!(mesh.check_integrity(), Err(I3SError::IndexOutOfBounds));
    let third = mesh.node(&3).unwrap();
    assert_eq!(mesh.children(third).err(), Some(I3SError::IndexOutOfBounds));
}

#[test]
fn parent_beyond_the_nodes_fails_the_check() {
    let mut nodes = five_nodes();
    nodes[4].parent = Some(5);
    assert_eq!(mesh_of(nodes, 2, 0).check_integrity(), Err(I3SError::IndexOutOfBounds));
}

#[test]
fn root_index_beyond_the_nodes_fails_the_check() {
    let mesh = mesh_of(five_nodes(), 2, 5);
    assert_eq!(mesh.check_integrity(), Err(I3SError::IndexOutOfBounds));
    assert_eq!(mesh.root().err(), Some(I3SError::IndexOutOfBounds));
}

#[test]
fn root_with_a_parent_is_an_invalid_root() {
    let mesh = mesh_of(five_nodes(), 2, 2);
    assert_eq!(mesh.root().err(), Some(I3SError::InvalidRoot));
    assert_eq!(mesh.check_integrity(), Err(I3SError::InvalidRoot));
}

#[test]
fn second_parentless_node_is_an_invalid_root() {
    let mut nodes = five_nodes();
    nodes[3].parent = None;
    let mesh = mesh_of(nodes, 2, 0);
    assert_eq!(mesh.root().unwrap().index, 0);
    assert_eq!(mesh.check_integrity(), Err(I3SError::InvalidRoot));
}

#[test]
fn child_that_names_another_parent_is_an_invalid_reference() {
    let mut nodes = five_nodes();
    nodes[3].parent = Some(1);
    assert_eq!(verdict(&nodes, 0), Err(I3SError::InvalidReference));
    assert_eq!(mesh_of(nodes, 2, 0).check_integrity(), Err(I3SError::InvalidReference));
}

#[test]
fn node_missing_among_its_parents_children_is_an_invalid_reference() {
    let mut nodes = five_nodes();
    nodes[2].children.pop();
    assert_eq!(verdict(&nodes, 0), Err(I3SError::InvalidReference));
}

#[test]
fn node_that_carries_another_index_is_an_invalid_reference() {
    let mut nodes = five_nodes();
    nodes[1].index = 3;
    assert_eq!(verdict(&nodes, 0), Err(I3SError::InvalidReference));
}

#[test]
fn out_of_bounds_is_reported_before_the_other_faults() {
    let mut nodes = five_nodes();
    nodes[1].parent = None;
    nodes[1].index = 7;
    nodes[4].children.push(5);
    assert_eq!(verdict(&nodes, 0), Err(I3SError::IndexOutOfBounds));
    nodes[4].children.pop();
    assert_eq!(verdict(&nodes, 0), Err(I3SError::InvalidRoot));
    nodes[1].parent = Some(0);
    assert_eq!(verdict(&nodes, 0), Err(I3SError::InvalidReference));
    nodes[1].index = 1;
    assert_eq!(verdict(&nodes, 0), Ok(()));
}

#[test]
fn single_node_is_a_sound_tree() {
    assert_eq!(verdict(&[node(0, None, &[])], 0), Ok(()));
    assert_eq!(verdict(&[], 0), Err(I3SError::IndexOutOfBounds));
}

#[test]
fn root_need_not_be_the_first_node() {
    let nodes = vec![node(0, Some(2), &[]), node(1, Some(2), &[]), node(2, None, &[0, 1])];
    assert_eq!(verdict(&nodes, 2), Ok(()));
    assert_eq!(verdict(&nodes, 0), Err(I3SError::InvalidRoot));
    let mesh = mesh_of(nodes, 64, 2);
    assert_eq!(mesh.root().unwrap().index, 2);
    assert_eq!(mesh.check_integrity(), Ok(()));
}

#[test]
fn root_geometry_may_be_empty() {
    let root = node(0, None, &[]);
    assert!(root.geometry().is_empty());
    let mut loaded = node(1, Some(0), &[]);
    loaded.geometry = vec![1, 2, 3];
    assert_eq!(loaded.geometry(), &vec![1, 2, 3]);
}

#[test]
fn sound_tree_hangs_below_its_root() {
    assert_eq!(rooted(&five_nodes(), 0), Ok(()));
    assert_eq!(rooted(&[node(0, None, &[])], 0), Ok(()));
    assert_eq!(mesh_of(five_nodes(), 2, 0).check_reachability(), Ok(()));
}

#[test]
fn deep_tree_hangs_below_its_root() {
    let count = 2000usize;
    let mut nodes: Vec<Node> = Vec::new();
    for index in 0..count {
        let parent = if index == 0 { None } else { Some(index - 1) };
        let children: Vec<usize> = if index + 1 < count { vec![index + 1] } else { Vec::new() };
        nodes.push(node(index, parent, &children));
    }
    assert_eq!(rooted(&nodes, 0), Ok(()));
    assert_eq!(mesh_of(nodes, 64, 0).check_reachability(), Ok(()));
}

#[test]
fn wide_tree_hangs_below_its_root() {
    let count = 500usize;
    let children: Vec<usize> = (1..count).collect();
    let mut nodes = vec![node(0, None, &children)];
    for index in 1..count {
        nodes.push(node(index, Some(0), &[]));
    }
    assert_eq!(rooted(&nodes, 0), Ok(()));
}

#[test]
fn cycle_beside_the_root_passes_the_links_but_not_the_walk() {
    let nodes = vec![node(0, None, &[]), node(1, Some(2), &[2]), node(2, Some(1), &[1])];
    assert_eq!(verdict(&nodes, 0), Ok(()));
    assert_eq!(rooted(&nodes, 0), Err(I3SError::InvalidReference));
    let mesh = mesh_of(nodes, 2, 0);
    assert_eq!(mesh.check_integrity(), Ok(()));
    assert_eq!(mesh.check_reachability(), Err(I3SError::InvalidReference));
}

#[test]
fn node_that_is_its_own_parent_does_not_hang_below_the_root() {
    let nodes = vec![node(0, None, &[1]), node(1, Some(0), &[]), node(2, Some(2), &[2])];
    assert_eq!(verdict(&nodes, 0), Ok(()));
    assert_eq!(rooted(&nodes, 0), Err(I3SError::InvalidReference));
}

#[test]
fn walk_reports_the_faults_of_the_links_first() {
    let mut nodes = five_nodes();
    nodes[4].children.push(5);
    assert_eq!(rooted(&nodes, 0), Err(I3SError::IndexOutOfBounds));
    assert_eq!(rooted(&five_nodes(), 2), Err(I3SError::InvalidRoot));
    let mut other = five_nodes();
    other[3].parent = Some(1);
    assert_eq!(rooted(&other, 0), Err(I3SError::InvalidReference));
    assert_eq!(rooted(&[], 0), Err(I3SError::IndexOutOfBounds));
}

#[test]
fn child_listed_twice_passes_the_links_but_not_the_walk() {
    let mut nodes = five_nodes();
    nodes[2].children.push(3);
    assert_eq!(verdict(&nodes, 0), Ok(()));
    assert_eq!(rooted(&nodes, 0), Err(I3SError::InvalidReference));
    let mesh = mesh_of(nodes, 2, 0);
    let inner = mesh.node(&2).unwrap();
    let children: Vec<usize> = mesh.children(inner).unwrap().iter().map(|child| child.index).collect();
    assert_eq!(children, vec![3, 4, 3]);
    assert_eq!(mesh.check_reachability(), Err(I3SError::InvalidReference));
}
