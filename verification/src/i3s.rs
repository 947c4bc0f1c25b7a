//! Scene layers: the profile of a descriptor, and the paged store of nodes.

use vstd::prelude::*;
use crate::bld;
use crate::cmn;
use crate::error::I3SError;
use crate::paging::{
    concat_pages,
    get_node_index_in_node_page,
    get_node_page_index,
    lemma_node_at_is_flat_index,
    node_at,
    offset_of,
    page_of,
    well_paged,
};
use crate::pcl;
use crate::psl;
use crate::text::str_eq;
use crate::tree::{check_tree, targets, tree_consistent, tree_verdict};
use crate::walk::{check_rooted, rooted_verdict, walked_once};

verus! {

/// A parsed JSON document of `serde_json`.
#[verifier::external_type_specification]
#[verifier::external_body]
pub struct ExJsonValue(serde_json::Value);

/// Why `serde_json` could not parse a text.
#[verifier::external_type_specification]
#[verifier::external_body]
pub struct ExJsonError(serde_json::Error);

/// The string members of a JSON document: where the document is an object,
/// each key whose value is a JSON string, with that string; the empty map for
/// a document that is no object.
pub uninterp spec fn json_string_members(document: serde_json::Value) -> Map<Seq<char>, Seq<char>>;

/// The string members of the document that a JSON text parses to, or `None`
/// where the text is no JSON document.
pub uninterp spec fn json_parsed_members(text: Seq<u8>) -> Option<Map<Seq<char>, Seq<char>>>;

/// `serde_json::from_slice` at `serde_json::Value`. Parsing reads nothing but
/// the bytes, so the same bytes always give the same outcome: a document,
/// whose string members are those named by `json_parsed_members`, or an error
/// where that name is `None`.
#[verifier::external_body]
fn parse_json(text: &[u8]) -> (r: Result<serde_json::Value, serde_json::Error>)
    ensures
        match r {
            Ok(document) => json_parsed_members(text@) == Some(json_string_members(document)),
            Err(_) => json_parsed_members(text@) is None,
        },
{
    serde_json::from_slice::<serde_json::Value>(text)
}

/// `serde_json::Value::get` with a string key, kept where the member is a
/// JSON string. `get` returns the member of an object under that key and
/// `None` for a missing key or a document that is no object; a member that is
/// no string is handed back as `None` here.
#[verifier::external_body]
fn string_member<'a>(document: &'a serde_json::Value, key: &str) -> (r: Option<&'a str>)
    ensures
        match r {
            Some(text) => json_string_members(*document).contains_key(key@)
                && json_string_members(*document)[key@] == text@,
            None => !json_string_members(*document).contains_key(key@),
        },
{
    match document.get(key) {
        Some(serde_json::Value::String(text)) => Some(text.as_str()),
        _ => None,
    }
}

/// The five profiles of a scene layer.
#[derive(Debug, Clone, Copy, PartialEq, Eq, Structural)]
pub enum LayerKind {
    IntegratedMesh,
    DDDObject,
    Point,
    Building,
    PointCloud,
}

impl LayerKind {
    /// The `layerType` tag of the profile.
    pub open spec fn spec_tag(self) -> &'static str {
        match self {
            LayerKind::IntegratedMesh => "IntegratedMesh",
            LayerKind::DDDObject => "3DObject",
            LayerKind::Point => "Point",
            LayerKind::Building => "Building",
            LayerKind::PointCloud => "PointCloud",
        }
    }

    /// The profile that a `layerType` tag names, if any.
    pub open spec fn spec_from_tag(tag: Seq<char>) -> Option<LayerKind> {
        if tag == "IntegratedMesh"@ {
            Some(LayerKind::IntegratedMesh)
        } else if tag == "Point"@ {
            Some(LayerKind::Point)
        } else if tag == "Building"@ {
            Some(LayerKind::Building)
        } else if tag == "PointCloud"@ {
            Some(LayerKind::PointCloud)
        } else if tag == "3DObject"@ {
            Some(LayerKind::DDDObject)
        } else {
            None
        }
    }

    /// The `layerType` tag of the profile.
    pub fn tag(&self) -> (text: &'static str)
        ensures
            text@ == self.spec_tag()@,
    {
        match self {
            LayerKind::IntegratedMesh => "IntegratedMesh",
            LayerKind::DDDObject => "3DObject",
            LayerKind::Point => "Point",
            LayerKind::Building => "Building",
            LayerKind::PointCloud => "PointCloud",
        }
    }

    /// The profile that a `layerType` tag names. Any other tag is refused
    /// with `UnsupportedLayerType`.
    pub fn from_tag(tag: &str) -> (r: Result<LayerKind, I3SError>)
        ensures
            r == match LayerKind::spec_from_tag(tag@) {
                Some(kind) => Ok::<LayerKind, I3SError>(kind),
                None => Err::<LayerKind, I3SError>(I3SError::UnsupportedLayerType),
            },
    {
        if str_eq(tag, "IntegratedMesh") {
            Ok(LayerKind::IntegratedMesh)
        } else if str_eq(tag, "Point") {
            Ok(LayerKind::Point)
        } else if str_eq(tag, "Building") {
            Ok(LayerKind::Building)
        } else if str_eq(tag, "PointCloud") {
            Ok(LayerKind::PointCloud)
        } else if str_eq(tag, "3DObject") {
            Ok(LayerKind::DDDObject)
        } else {
            Err(I3SError::UnsupportedLayerType)
        }
    }
}

/// Every profile is found again from its own tag.
pub proof fn lemma_tag_round_trip(kind: LayerKind)
    ensures
        LayerKind::spec_from_tag(kind.spec_tag()@) == Some(kind),
{
    reveal_strlit("IntegratedMesh");
    reveal_strlit("3DObject");
    reveal_strlit("Point");
    reveal_strlit("Building");
    reveal_strlit("PointCloud");
    assert("Point"@.len() == 5);
    assert("PointCloud"@.len() == 10);
    assert("Building"@.len() == 8);
    assert("3DObject"@.len() == 8);
    assert("IntegratedMesh"@.len() == 14);
    assert("3DObject"@[0] == '3');
    assert("Building"@[0] == 'B');
}

/// The `layerType` of a document with the given string members: the member
/// of that name, or `Decode` where there is none.
pub open spec fn spec_layer_type(members: Map<Seq<char>, Seq<char>>) -> Result<Seq<char>, I3SError> {
    if members.contains_key("layerType"@) {
        Ok(members["layerType"@])
    } else {
        Err(I3SError::Decode)
    }
}

/// The `layerType` tag of a scene-layer descriptor. A document that is no
/// object, has no such member, or has one that is no string, is refused with
/// `Decode`.
pub fn get_layer_type(scene_layer_info: &serde_json::Value) -> (r: Result<&str, I3SError>)
    ensures
        match r {
            Ok(tag) => spec_layer_type(json_string_members(*scene_layer_info)) == Ok::<Seq<char>, I3SError>(tag@),
            Err(e) => spec_layer_type(json_string_members(*scene_layer_info)) == Err::<Seq<char>, I3SError>(e),
        },
{
    match string_member(scene_layer_info, "layerType") {
        Some(tag) => Ok(tag),
        None => Err(I3SError::Decode),
    }
}

/// The profile of a descriptor with the given string members.
pub open spec fn spec_document_kind(members: Map<Seq<char>, Seq<char>>) -> Result<LayerKind, I3SError> {
    match spec_layer_type(members) {
        Ok(tag) => match LayerKind::spec_from_tag(tag) {
            Some(kind) => Ok(kind),
            None => Err(I3SError::UnsupportedLayerType),
        },
        Err(e) => Err(e),
    }
}

/// The profile of a parsed descriptor: `Decode` where it has no `layerType`
/// string, `UnsupportedLayerType` where the tag names none of the five
/// profiles.
pub fn document_kind(document: &serde_json::Value) -> (r: Result<LayerKind, I3SError>)
    ensures
        r == spec_document_kind(json_string_members(*document)),
{
    match get_layer_type(document) {
        Ok(tag) => LayerKind::from_tag(tag),
        Err(e) => Err(e),
    }
}

/// Parses the bytes of a scene-layer descriptor and finds its profile. The
/// document comes back with the profile, for the caller to decode into the
/// record of that profile. Bytes that are no JSON document are refused with
/// `Decode`; the other failures are those of `document_kind`.
pub fn unpack_scene_layer_information(buffer: &[u8]) -> (r: Result<(LayerKind, serde_json::Value), I3SError>)
    ensures
        match r {
            Ok((kind, document)) => json_parsed_members(buffer@) == Some(json_string_members(document))
                && spec_document_kind(json_string_members(document)) == Ok::<LayerKind, I3SError>(kind),
            Err(e) => match json_parsed_members(buffer@) {
                Some(members) => spec_document_kind(members) == Err::<LayerKind, I3SError>(e),
                None => e == I3SError::Decode,
            },
        },
{
    match parse_json(buffer) {
        Ok(document) => match document_kind(&document) {
            Ok(kind) => Ok((kind, document)),
            Err(e) => Err(e),
        },
        Err(_) => Err(I3SError::Decode),
    }
}

/// The descriptor of a scene layer, in the record of its profile.
#[derive(Debug)]
pub enum I3SInfo {
    IntegratedMesh(cmn::SceneLayerInformation),
    DDDObject(cmn::SceneLayerInformation),
    Point(psl::SceneLayerInfo),
    Building(bld::SceneLayerInformation),
    PointCloud(pcl::SceneLayerInformation),
}

impl I3SInfo {
    /// The profile of the descriptor.
    pub open spec fn spec_kind(&self) -> LayerKind {
        match self {
            I3SInfo::IntegratedMesh(_) => LayerKind::IntegratedMesh,
            I3SInfo::DDDObject(_) => LayerKind::DDDObject,
            I3SInfo::Point(_) => LayerKind::Point,
            I3SInfo::Building(_) => LayerKind::Building,
            I3SInfo::PointCloud(_) => LayerKind::PointCloud,
        }
    }

    /// The profile of the descriptor.
    pub fn kind(&self) -> (kind: LayerKind)
        ensures
            kind == self.spec_kind(),
    {
        match self {
            I3SInfo::IntegratedMesh(_) => LayerKind::IntegratedMesh,
            I3SInfo::DDDObject(_) => LayerKind::DDDObject,
            I3SInfo::Point(_) => LayerKind::Point,
            I3SInfo::Building(_) => LayerKind::Building,
            I3SInfo::PointCloud(_) => LayerKind::PointCloud,
        }
    }

    /// The `layerType` tag of the descriptor's profile.
    pub fn layer_type(&self) -> (tag: &str)
        ensures
            tag@ == self.spec_kind().spec_tag()@,
    {
        match self {
            I3SInfo::IntegratedMesh(_) => "IntegratedMesh",
            I3SInfo::DDDObject(_) => "3DObject",
            I3SInfo::Point(_) => "Point",
            I3SInfo::Building(_) => "Building",
            I3SInfo::PointCloud(_) => "PointCloud",
        }
    }
}

/// A source of scene-layer resources: an archive or a service.
pub trait I3SFormat {}

/// The data of one profile of scene layer.
pub trait I3SProfile {}

/// Whether the pages are cut as the arithmetic expects.
fn pages_well_cut(node_pages: &Vec<cmn::NodePage>, nodes_per_page: usize) -> (ok: bool)
    ensures
        ok == well_paged(node_pages@, nodes_per_page as int),
{
    if nodes_per_page == 0 {
        return false;
    }
    let count: usize = node_pages.len();
    let mut p: usize = 0;
    while p < count
        invariant
            p <= count,
            count == node_pages@.len(),
            nodes_per_page > 0,
            forall|q: int| 0 <= q < p && q < count - 1 ==> (#[trigger] node_pages@[q]).nodes@.len() == nodes_per_page,
            p == count && count > 0 ==> node_pages@[count - 1].nodes@.len() <= nodes_per_page,
        decreases count - p,
    {
        let held: usize = node_pages[p].nodes.len();
        if p + 1 < count {
            if held != nodes_per_page {
                return false;
            }
        } else {
            if held > nodes_per_page {
                return false;
            }
        }
        p = p + 1;
    }
    true
}

/// The node store of an integrated mesh: all nodes of the layer, in pages.
///
/// The node of index `i` stands in page `i / n` at place `i % n`, where `n`
/// is the number of nodes per page. A store is made once, from all pages of
/// its layer, and not changed afterwards. Its pages are always cut as the
/// arithmetic expects (`wf`), so that the node of index `i` is `flat()[i]`,
/// the `i`-th node of the pages taken one after another.
#[derive(Debug)]
pub struct IntegratedMesh {
    node_pages: Vec<cmn::NodePage>,
    root_index: usize,
    nodes_per_page: usize,
}

impl I3SProfile for IntegratedMesh {}

impl Default for IntegratedMesh {
    /// The store without nodes, with pages of 64 nodes and root index 0.
    fn default() -> (r: Self)
        ensures
            r.wf(),
            r.pages().len() == 0,
            r.spec_nodes_per_page() == 64,
            r.spec_root_index() == 0,
    {
        IntegratedMesh { node_pages: Vec::new(), root_index: 0, nodes_per_page: 64 }
    }
}

impl IntegratedMesh {
    #[verifier::type_invariant]
    spec fn well_cut(&self) -> bool {
        well_paged(self.node_pages@, self.nodes_per_page as int)
    }

    /// The pages of the store.
    pub closed spec fn pages(&self) -> Seq<cmn::NodePage> {
        self.node_pages@
    }

    /// The number of nodes that a full page holds.
    pub closed spec fn spec_nodes_per_page(&self) -> int {
        self.nodes_per_page as int
    }

    /// The index of the root node.
    pub closed spec fn spec_root_index(&self) -> int {
        self.root_index as int
    }

    /// All nodes of the store, page after page.
    pub open spec fn flat(&self) -> Seq<cmn::Node> {
        concat_pages(self.pages())
    }

    /// Whether the pages are cut as the arithmetic expects. Every store that
    /// a program holds is.
    pub open spec fn wf(&self) -> bool {
        well_paged(self.pages(), self.spec_nodes_per_page())
    }

    /// The node that the arithmetic finds for an index, if the pages hold
    /// one there.
    pub open spec fn lookup(&self, index: int) -> Option<cmn::Node> {
        node_at(self.pages(), self.spec_nodes_per_page(), index)
    }

    /// Whether `r` is an answer to the lookup of `index`: the node that the
    /// arithmetic finds, or `IndexOutOfBounds` where it finds none.
    pub open spec fn answers(&self, index: usize, r: Result<&cmn::Node, I3SError>) -> bool {
        match r {
            Ok(node) => self.lookup(index as int) == Some(*node),
            Err(e) => e == I3SError::IndexOutOfBounds && self.lookup(index as int) is None,
        }
    }

    /// What `root` reports: the node at the root index, `IndexOutOfBounds`
    /// where there is none, `InvalidRoot` where that node has a parent.
    pub open spec fn spec_root(&self) -> Result<cmn::Node, I3SError> {
        if self.spec_root_index() >= self.flat().len() {
            Err(I3SError::IndexOutOfBounds)
        } else if self.flat()[self.spec_root_index()].parent is Some {
            Err(I3SError::InvalidRoot)
        } else {
            Ok(self.flat()[self.spec_root_index()])
        }
    }

    /// A store of the given pages, paged and rooted as the layer's descriptor
    /// says. A page size of zero, a page before the last that is not full,
    /// or a last page that is over-full, is refused with `Decode`.
    pub fn new(node_pages: Vec<cmn::NodePage>, definition: &cmn::NodePageDefinition) -> (r: Result<
        Self,
        I3SError,
    >)
        ensures
            match r {
                Ok(mesh) => well_paged(node_pages@, definition.nodes_per_page as int) && mesh.wf()
                    && mesh.pages() == node_pages@ && mesh.spec_nodes_per_page()
                    == definition.nodes_per_page && mesh.spec_root_index() == definition.root_index,
                Err(e) => e == I3SError::Decode && !well_paged(node_pages@, definition.nodes_per_page as int),
            },
    {
        let nodes_per_page: usize = definition.nodes_per_page as usize;
        if pages_well_cut(&node_pages, nodes_per_page) {
            Ok(IntegratedMesh { node_pages, root_index: definition.root_index, nodes_per_page })
        } else {
            Err(I3SError::Decode)
        }
    }

    /// The pages of the store.
    pub fn node_pages(&self) -> (pages: &Vec<cmn::NodePage>)
        ensures
            pages@ == self.pages(),
            self.wf(),
    {
        proof {
            use_type_invariant(self);
        }
        &self.node_pages
    }

    /// The number of nodes that a full page holds.
    pub fn nodes_per_page(&self) -> (n: usize)
        ensures
            n == self.spec_nodes_per_page(),
            n > 0,
    {
        proof {
            use_type_invariant(self);
        }
        self.nodes_per_page
    }

    /// The index of the root node.
    pub fn root_index(&self) -> (index: usize)
        ensures
            index == self.spec_root_index(),
    {
        self.root_index
    }

    /// The node of the given index: `flat()[index]`, which stands at place
    /// `index % n` of page `index / n`. An index from the number of nodes on
    /// is refused with `IndexOutOfBounds`.
    pub fn node(&self, index: &usize) -> (r: Result<&cmn::Node, I3SError>)
        ensures
            r is Ok <==> *index < self.flat().len(),
            r matches Ok(node) ==> *node == self.flat()[*index as int],
            r matches Err(e) ==> e == I3SError::IndexOutOfBounds,
            self.answers(*index, r),
    {
        proof {
            use_type_invariant(self);
            lemma_node_at_is_flat_index(self.pages(), self.spec_nodes_per_page(), *index as int);
        }
        let page: usize = get_node_page_index(*index, self.nodes_per_page);
        let offset: usize = get_node_index_in_node_page(*index, self.nodes_per_page);
        if page >= self.node_pages.len() {
            return Err(I3SError::IndexOutOfBounds);
        }
        let nodes: &Vec<cmn::Node> = &self.node_pages[page].nodes;
        if offset >= nodes.len() {
            return Err(I3SError::IndexOutOfBounds);
        }
        Ok(&nodes[offset])
    }

    /// The nodes of the given indices, in the order of the indices.
    /// `IndexOutOfBounds` is reported where one of the indices reaches the
    /// number of nodes.
    pub fn nodes(&self, indices: &[usize]) -> (r: Result<Vec<&cmn::Node>, I3SError>)
        ensures
            r is Ok <==> forall|k: int| 0 <= k < indices@.len() ==> #[trigger] indices@[k] < self.flat().len(),
            r matches Ok(found) ==> found@.len() == indices@.len() && forall|k: int|
                0 <= k < indices@.len() ==> *#[trigger] found@[k] == self.flat()[indices@[k] as int],
            r matches Err(e) ==> e == I3SError::IndexOutOfBounds,
    {
        let mut found: Vec<&cmn::Node> = Vec::new();
        let mut k: usize = 0;
        while k < indices.len()
            invariant
                k <= indices@.len(),
                found@.len() == k,
                forall|j: int| 0 <= j < k ==> #[trigger] indices@[j] < self.flat().len(),
                forall|j: int| 0 <= j < k ==> *#[trigger] found@[j] == self.flat()[indices@[j] as int],
            decreases indices@.len() - k,
        {
            match self.node(&indices[k]) {
                Ok(node) => {
                    found.push(node);
                },
                Err(e) => {
                    assert(!(indices@[k as int] < self.flat().len()));
                    return Err(e);
                },
            }
            k = k + 1;
        }
        Ok(found)
    }

    /// The children of a node, in the order in which the node lists them.
    /// `IndexOutOfBounds` is reported where a child index reaches the number
    /// of nodes.
    pub fn children(&self, node: &cmn::Node) -> (r: Result<Vec<&cmn::Node>, I3SError>)
        ensures
            r is Ok <==> forall|k: int|
                0 <= k < node.children@.len() ==> #[trigger] node.children@[k] < self.flat().len(),
            r matches Ok(found) ==> found@.len() == node.children@.len() && forall|k: int|
                0 <= k < node.children@.len() ==> *#[trigger] found@[k] == self.flat()[node.children@[k] as int],
            r matches Err(e) ==> e == I3SError::IndexOutOfBounds,
    {
        self.nodes(node.children.as_slice())
    }

    /// The root node: the node at the root index, found without a search.
    /// `IndexOutOfBounds` is reported where the root index reaches the number
    /// of nodes, `InvalidRoot` where the node there has a parent.
    pub fn root(&self) -> (r: Result<&cmn::Node, I3SError>)
        ensures
            match r {
                Ok(node) => self.spec_root() == Ok::<cmn::Node, I3SError>(*node),
                Err(e) => self.spec_root() == Err::<cmn::Node, I3SError>(e),
            },
    {
        match self.node(&self.root_index) {
            Ok(node) => {
                if node.is_root() {
                    Ok(node)
                } else {
                    Err(I3SError::InvalidRoot)
                }
            },
            Err(e) => Err(e),
        }
    }

    /// References to all nodes of the store, page after page.
    pub fn all_nodes(&self) -> (r: Vec<&cmn::Node>)
        ensures
            targets(r@) == self.flat(),
    {
        let mut found: Vec<&cmn::Node> = Vec::new();
        let count: usize = self.node_pages.len();
        let mut p: usize = 0;
        assert(self.node_pages@.take(0) =~= Seq::<cmn::NodePage>::empty());
        assert(targets(found@) =~= concat_pages(self.node_pages@.take(0)));
        while p < count
            invariant
                p <= count,
                count == self.node_pages@.len(),
                targets(found@) == concat_pages(self.node_pages@.take(p as int)),
            decreases count - p,
        {
            let page: &Vec<cmn::Node> = &self.node_pages[p].nodes;
            let ghost before = found@;
            let mut o: usize = 0;
            while o < page.len()
                invariant
                    o <= page@.len(),
                    p < count,
                    count == self.node_pages@.len(),
                    page == &self.node_pages@[p as int].nodes,
                    targets(found@) == targets(before) + page@.take(o as int),
                decreases page@.len() - o,
            {
                let ghost earlier = found@;
                found.push(&page[o]);
                proof {
                    let grown = targets(found@);
                    let wanted = targets(before) + page@.take(o + 1);
                    assert(targets(earlier).len() == targets(before).len() + o);
                    assert forall|i: int| 0 <= i < grown.len() implies grown[i] == wanted[i] by {
                        if i < earlier.len() {
                            assert(grown[i] == targets(earlier)[i]);
                            assert((targets(before) + page@.take(o as int))[i] == wanted[i]);
                        }
                    }
                    assert(grown =~= wanted);
                }
                o = o + 1;
            }
            proof {
                let next = self.node_pages@.take(p + 1);
                assert(next.drop_last() =~= self.node_pages@.take(p as int));
                assert(next.last() == self.node_pages@[p as int]);
                assert(page@.take(page@.len() as int) =~= page@);
            }
            p = p + 1;
        }
        assert(self.node_pages@.take(count as int) =~= self.node_pages@);
        found
    }

    /// Checks that the nodes of the store are a sound tree under the root
    /// index.
    ///
    /// `IndexOutOfBounds` is reported where the root index, a child or a
    /// parent names no node; else `InvalidRoot` where the root index does not
    /// name the one parentless node; else `InvalidReference` where a node
    /// does not carry the index of its place, a child does not name the node
    /// that lists it, or a node is missing among its parent's children.
    pub fn check_integrity(&self) -> (r: Result<(), I3SError>)
        ensures
            r == tree_verdict(self.flat(), self.spec_root_index()),
            r is Ok <==> tree_consistent(self.flat(), self.spec_root_index()),
    {
        let nodes: Vec<&cmn::Node> = self.all_nodes();
        check_tree(&nodes, self.root_index)
    }

    /// Checks the store as `check_integrity` does and, where the links are
    /// sound, that a walk from the root over the child links comes to every
    /// node exactly once: that the links hold no cycle, leave no node aside
    /// and list no child twice. The lookups of the store do not need this
    /// check; it is for a caller that does not trust its source.
    ///
    /// The failures of `check_integrity` are reported as they are; a node
    /// that does not hang below the root, or that lists a child twice, is
    /// reported as `InvalidReference`.
    pub fn check_reachability(&self) -> (r: Result<(), I3SError>)
        ensures
            r == rooted_verdict(self.flat(), self.spec_root_index()),
            r is Ok <==> tree_consistent(self.flat(), self.spec_root_index()) && walked_once(
                self.flat(),
                self.spec_root_index(),
            ),
    {
        let nodes: Vec<&cmn::Node> = self.all_nodes();
        check_rooted(&nodes, self.root_index)
    }
}

/// A lookup is a pure function of the store and the index: any two answers
/// to the lookup of one index in one store are equal.
pub proof fn lemma_node_is_stable(
    mesh: IntegratedMesh,
    index: usize,
    first: Result<&cmn::Node, I3SError>,
    second: Result<&cmn::Node, I3SError>,
)
    requires
        mesh.answers(index, first),
        mesh.answers(index, second),
    ensures
        first == second,
{
}

/// In a well-cut store every node stands where the arithmetic looks for it:
/// the node of index `i` below the number of nodes is the `i`-th node of the
/// concatenated pages, it is found in page `page_of(i)` at place
/// `offset_of(i)`, and there is no node from the number of nodes on.
pub proof fn lemma_lookup_is_position(mesh: IntegratedMesh, i: int)
    requires
        mesh.wf(),
        0 <= i,
    ensures
        i < mesh.flat().len() ==> mesh.lookup(i) == Some(mesh.flat()[i]),
        i < mesh.flat().len() ==> page_of(i, mesh.spec_nodes_per_page()) < mesh.pages().len() && mesh.flat()[i]
            == mesh.pages()[page_of(i, mesh.spec_nodes_per_page())].nodes@[offset_of(
            i,
            mesh.spec_nodes_per_page(),
        )],
        i >= mesh.flat().len() ==> mesh.lookup(i) is None,
{
    lemma_node_at_is_flat_index(mesh.pages(), mesh.spec_nodes_per_page(), i);
}

/// Where every node carries the index of its place, as in a sound tree, the
/// lookup of a node's own index finds that node where it stands.
pub proof fn lemma_own_index_is_position(mesh: IntegratedMesh, i: int)
    requires
        mesh.wf(),
        0 <= i < mesh.flat().len(),
        mesh.flat()[i].index == i,
    ensures
        mesh.lookup(mesh.flat()[i].index as int) == Some(mesh.flat()[i]),
        mesh.pages()[page_of(mesh.flat()[i].index as int, mesh.spec_nodes_per_page())].nodes@[offset_of(
            mesh.flat()[i].index as int,
            mesh.spec_nodes_per_page(),
        )] == mesh.flat()[i],
{
    lemma_lookup_is_position(mesh, i);
}

/// The data of a 3D-object layer.
#[derive(Debug)]
pub struct DDDObject {
    pub statistics: cmn::AttributeStatistics,
    pub node_pages: Vec<cmn::NodePage>,
}

impl I3SProfile for DDDObject {}

/// The data of a point-cloud layer.
#[derive(Debug)]
pub struct PointCloud {
    pub statistics: pcl::Statistics,
    pub node_pages: Vec<pcl::NodePage>,
}

impl I3SProfile for PointCloud {}

/// The data of a point layer.
#[derive(Debug)]
pub struct Point {
    pub statistics: cmn::Statistics,
    pub node_pages: Vec<cmn::NodePage>,
}

impl I3SProfile for Point {}

/// The data of a building layer.
#[derive(Debug)]
pub struct Building {
    pub statistics: bld::Statistics,
    pub sub_layer: bld::SubLayer,
}

impl I3SProfile for Building {}

/// A scene layer: where it comes from, its data, and its descriptor.
pub struct SceneLayer<F, P> where F: I3SFormat, P: I3SProfile {
    pub format: F,
    pub profile: P,
    pub information: I3SInfo,
}

} // verus!
