//! The records of the point-cloud profile.

use vstd::prelude::*;
use crate::cmn::{Field, HeightModelInfo, ServiceUpdateTimeStamp, SpatialReference, OBB};
use crate::ieee::{Float64, ONE_64};

verus! {

/// The `layerType` of a point-cloud layer where the document gives none.
pub fn default_layer_type() -> (r: String)
    ensures
        r@ == "PointCloud"@,
{
    "PointCloud".to_owned()
}

/// The descriptor of a point-cloud layer.
#[derive(Debug)]
pub struct SceneLayerInformation {
    pub id: usize,
    pub layer_type: String,
    pub name: String,
    pub store: Store,
    pub attribute_storage_info: Vec<AttributeInfo>,
    pub spatial_reference: Option<SpatialReference>,
    pub alias: Option<String>,
    pub desc: Option<String>,
    pub copyright_text: Option<String>,
    pub capabilities: Option<Vec<String>>,
    pub height_model_info: Option<HeightModelInfo>,
    pub service_update_time_stamp: Option<ServiceUpdateTimeStamp>,
    pub drawing_info: Option<DrawingInfo>,
    pub elevation_info: Option<ElevationInfo>,
    pub fields: Option<Vec<Field>>,
}

impl Default for SceneLayerInformation {
    /// The empty descriptor of a point-cloud layer: id `0`, no name, the
    /// default store, and nothing optional.
    fn default() -> (r: Self)
        ensures
            r.id == 0,
            r.layer_type@ == "PointCloud"@,
            r.name@ == Seq::<char>::empty(),
            r.spatial_reference is None,
            r.store.is_default(),
            r.attribute_storage_info@.len() == 0,
            r.alias is None,
            r.desc is None,
            r.copyright_text is None,
            r.capabilities is None,
            r.height_model_info is None,
            r.service_update_time_stamp is None,
            r.drawing_info is None,
            r.elevation_info is None,
            r.fields is None,
    {
        Self {
            id: 0,
            layer_type: default_layer_type(),
            name: String::new(),
            spatial_reference: None,
            store: Store::default(),
            attribute_storage_info: Vec::new(),
            alias: None,
            desc: None,
            copyright_text: None,
            capabilities: None,
            height_model_info: None,
            service_update_time_stamp: None,
            drawing_info: None,
            elevation_info: None,
            fields: None,
        }
    }
}

#[derive(Default, Debug)]
pub struct AttributeInfo {
    pub key: String,
    pub name: String,
    pub ordering: Option<Vec<String>>,
    pub encoding: Option<String>,
    pub attribute_values: Option<AttributeValue>,
}

/// The number of nodes in a page where the document gives none.
pub fn default_nodes_per_page() -> (r: usize)
    ensures
        r == 64,
{
    64
}

/// The kind of bounding volume where the document gives none.
pub fn default_bounding_volume_type() -> (r: String)
    ensures
        r@ == "obb"@,
{
    "obb".to_owned()
}

/// The metric of level-of-detail selection where the document gives none.
pub fn default_lod_selection_metric_type() -> (r: String)
    ensures
        r@ == "density-threshold"@,
{
    "density-threshold".to_owned()
}

/// How the nodes of a point cloud are indexed.
#[derive(Debug)]
pub struct Index {
    pub node_version: usize,
    pub nodes_per_page: usize,
    pub bounding_volume_type: String,
    pub lod_selection_metric_type: String,
    pub href: Option<String>,
}

impl Index {
    /// Whether the index is the one that `default` makes.
    pub open spec fn is_default(&self) -> bool {
        &&& self.node_version == 0
        &&& self.nodes_per_page == 64
        &&& self.bounding_volume_type@ == "obb"@
        &&& self.lod_selection_metric_type@ == "density-threshold"@
        &&& self.href is None
    }
}

impl Default for Index {
    fn default() -> (r: Self)
        ensures
            r.is_default(),
    {
        Self {
            node_version: 0,
            nodes_per_page: default_nodes_per_page(),
            bounding_volume_type: default_bounding_volume_type(),
            lod_selection_metric_type: default_lod_selection_metric_type(),
            href: None,
        }
    }
}

#[derive(Debug)]
pub struct Store {
    pub profile: String,
    pub version: String,
    pub extent: [Float64; 4],
    pub index: Index,
    pub default_geometry_schema: DefaultGeometrySchema,
    pub id: Option<String>,
    pub geometry_encoding: Option<String>,
    pub attribute_encoding: Option<String>,
}

impl Store {
    /// Whether the store is the one that `default` makes.
    pub open spec fn is_default(&self) -> bool {
        &&& self.profile@ == Seq::<char>::empty()
        &&& self.version@ == Seq::<char>::empty()
        &&& forall|i: int| 0 <= i < 4 ==> self.extent[i].bits == 0
        &&& self.index.is_default()
        &&& self.default_geometry_schema.is_default()
        &&& self.id is None
        &&& self.geometry_encoding is None
        &&& self.attribute_encoding is None
    }
}

impl Default for Store {
    fn default() -> (r: Self)
        ensures
            r.is_default(),
    {
        Self {
            profile: String::new(),
            version: String::new(),
            extent: [Float64::zero(), Float64::zero(), Float64::zero(), Float64::zero()],
            index: Index::default(),
            default_geometry_schema: DefaultGeometrySchema::default(),
            id: None,
            geometry_encoding: None,
            attribute_encoding: None,
        }
    }
}

/// The encoding of positions where the document gives none.
pub fn default_encoding() -> (r: String)
    ensures
        r@ == "lepcc-xyz"@,
{
    "lepcc-xyz".to_owned()
}

/// The kind of geometry of a point cloud.
#[derive(Debug)]
pub struct GeometryType(pub String);

impl From<GeometryType> for String {
    fn from(geometry_type: GeometryType) -> (r: String) {
        geometry_type.0
    }
}

impl vstd::std_specs::convert::FromSpecImpl<GeometryType> for String {
    open spec fn obeys_from_spec() -> bool {
        true
    }

    open spec fn from_spec(geometry_type: GeometryType) -> String {
        geometry_type.0
    }
}

impl Default for GeometryType {
    fn default() -> (r: Self)
        ensures
            r.0@ == "Points"@,
    {
        GeometryType("Points".to_owned())
    }
}

/// The layout of the attributes of a point cloud.
#[derive(Debug)]
pub struct Topology(pub String);

impl From<Topology> for String {
    fn from(topology: Topology) -> (r: String) {
        topology.0
    }
}

impl vstd::std_specs::convert::FromSpecImpl<Topology> for String {
    open spec fn obeys_from_spec() -> bool {
        true
    }

    open spec fn from_spec(topology: Topology) -> String {
        topology.0
    }
}

impl Default for Topology {
    fn default() -> (r: Self)
        ensures
            r.0@ == "PerAttributeArray"@,
    {
        Topology("PerAttributeArray".to_owned())
    }
}

#[derive(Debug)]
pub struct DefaultGeometrySchema {
    pub vertex_attributes: VertexAttributes,
    pub geometry_type: GeometryType,
    pub topology: Topology,
    pub encoding: String,
    pub ordering: Option<Vec<String>>,
}

impl DefaultGeometrySchema {
    /// Whether the schema is the one that `default` makes.
    pub open spec fn is_default(&self) -> bool {
        &&& self.vertex_attributes.position.value_type@ == Seq::<char>::empty()
        &&& self.vertex_attributes.position.values_per_element == 0
        &&& self.geometry_type.0@ == "Points"@
        &&& self.topology.0@ == "PerAttributeArray"@
        &&& self.encoding@ == Seq::<char>::empty()
        &&& self.ordering is None
    }
}

impl Default for DefaultGeometrySchema {
    fn default() -> (r: Self)
        ensures
            r.is_default(),
    {
        Self {
            vertex_attributes: VertexAttributes {
                position: AttributeValue { value_type: String::new(), values_per_element: 0 },
            },
            geometry_type: GeometryType::default(),
            topology: Topology::default(),
            encoding: String::new(),
            ordering: None,
        }
    }
}

#[derive(Default, Debug)]
pub struct VertexAttributes {
    pub position: AttributeValue,
}

#[derive(Default, Debug)]
pub struct AttributeValue {
    pub value_type: String,
    pub values_per_element: usize,
}

#[derive(Default, Debug)]
pub struct ElevationInfo {
    pub mode: String,
    pub offset: Option<Float64>,
}

#[derive(Default, Debug)]
pub struct DrawingInfo {
    pub renderer: Renderer,
}

#[derive(Default, Debug)]
pub struct Renderer {
    pub algorithm: Option<Algorithm>,
    pub points_per_inch: Float64,
    pub field: String,
    pub field_transform_type: String,
    pub type_field: String,
    pub stops: Option<Vec<Stop>>,
}

#[derive(Debug, Clone)]
pub struct Algorithm {
    pub type_field: String,
    pub scale_factor: Float64,
}

impl Default for Algorithm {
    /// The unnamed algorithm with a scale factor of `1.0`.
    fn default() -> (r: Self)
        ensures
            r.type_field@ == Seq::<char>::empty(),
            r.scale_factor.bits == ONE_64,
    {
        Self { type_field: String::new(), scale_factor: Float64::from_bits(ONE_64) }
    }
}

#[derive(Default, Debug, Clone)]
pub struct Stop {
    pub value: Float64,
    pub color: Vec<i64>,
}

#[derive(Default, Debug)]
pub struct Statistics {
    pub attribute: Option<String>,
    pub attribute_statistics: Option<AttributeStatistics>,
    pub labels: Option<Labels>,
}

#[derive(Default, Debug)]
pub struct AttributeStatistics {
    pub min: Float64,
    pub max: Float64,
    pub count: Float64,
    pub sum: Option<Float64>,
    pub avg: Option<Float64>,
    pub stddev: Option<Float64>,
    pub variance: Option<Float64>,
    pub histogram: Option<Histogram>,
    pub most_frequent_values: Option<Vec<ValueCount>>,
}

#[derive(Default, Debug)]
pub struct Histogram {
    pub minimum: Float64,
    pub maximum: Float64,
    pub counts: Vec<usize>,
}

#[derive(Default, Debug)]
pub struct ValueCount {
    pub value: i32,
    pub count: usize,
}

#[derive(Default, Debug)]
pub struct Labels {
    pub labels: Option<Vec<Label>>,
    pub bitfield_labels: Option<Vec<BitfieldLabel>>,
}

#[derive(Default, Debug)]
pub struct Label {
    pub value: i32,
    pub label: String,
}

#[derive(Default, Debug)]
pub struct BitfieldLabel {
    pub bit_number: i32,
    pub label: String,
}

/// One node of a point cloud.
#[derive(Default, Debug)]
pub struct Node {
    pub resource_id: usize,
    pub first_child: usize,
    pub child_count: usize,
    pub obb: OBB,
    pub vertex_count: Option<usize>,
    pub lod_threshold: Option<Float64>,
}

#[derive(Default, Debug)]
pub struct NodePage {
    pub nodes: Vec<Node>,
}

} // verus!
