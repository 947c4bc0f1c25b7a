//! The records of the building profile.

use vstd::prelude::*;
use crate::cmn;
use crate::ieee::Float64;

verus! {

#[derive(Default, Debug)]
pub struct SubLayer {
    pub id: usize,
    pub name: String,
    pub layer_type: String,
    pub alias: Option<String>,
    pub discipline: Option<String>,
    pub model_name: Option<String>,
    pub visibility: Option<bool>,
    pub sub_layers: Option<Vec<SubLayer>>,
}

#[derive(Default, Debug)]
pub struct Statistics {
    pub summary: Vec<AttributeStats>,
}

#[derive(Debug)]
pub enum MostFrequentValueTypeOptions {
    Str(String),
    Int(i32),
}

#[derive(Default, Debug)]
pub struct AttributeStats {
    pub field_name: String,
    pub sub_layer_ids: Vec<i32>,
    pub label: String,
    pub model_name: String,
    pub min: Option<Float64>,
    pub max: Option<Float64>,
    pub most_frequent_values: Option<Vec<MostFrequentValueTypeOptions>>,
}

/// The `layerType` of a building layer.
#[derive(Debug)]
pub struct LayerType(pub String);

impl Default for LayerType {
    fn default() -> (r: Self)
        ensures
            r.0@ == "Building"@,
    {
        Self("Building".to_owned())
    }
}

/// The descriptor of a building layer.
#[derive(Debug, Default)]
pub struct SceneLayerInformation {
    pub id: usize,
    pub name: String,
    pub version: String,
    pub alias: Option<String>,
    pub layer_type: LayerType,
    pub filters: Option<Vec<Filter>>,
    pub sub_layers: Vec<SubLayer>,
    pub full_extent: cmn::FullExtent,
    pub spatial_reference: cmn::SpatialReference,
    pub description: String,
    pub copyright_text: String,
    pub height_model_info: Option<cmn::HeightModelInfo>,
    pub active_filter_id: String,
    pub statistics_href: String,
}

#[derive(Default, Debug)]
pub struct Filter {
    pub id: String,
    pub name: String,
    pub description: String,
    pub filter_bloccks: Vec<FilterBlock>,
    pub is_default_filter: Option<bool>,
    pub is_visible: Option<bool>,
    pub filter_authoring_info: Option<FilterAuthoringInfo>,
}

#[derive(Default, Debug)]
pub struct FilterBlock {
    pub title: String,
    pub filter_mode: FilterMode,
    pub filter_expression: String,
}

#[derive(Default, Debug)]
pub struct FilterAuthoringInfo {}

/// The type of a solid filter mode where the document gives none.
pub fn default_solid_filter_mode_type() -> (r: String)
    ensures
        r@ == "solid"@,
{
    "solid".to_owned()
}

#[derive(Debug)]
pub struct FilterModeSolid {
    pub filter_type: String,
}

impl Default for FilterModeSolid {
    fn default() -> (r: Self)
        ensures
            r.filter_type@ == "solid"@,
    {
        Self { filter_type: default_solid_filter_mode_type() }
    }
}

/// The type of a wire-frame filter mode where the document gives none.
pub fn default_wire_frame_filter_mode_type() -> (r: String)
    ensures
        r@ == "wireFrame"@,
{
    "wireFrame".to_owned()
}

#[derive(Debug)]
pub struct FilterModeWireFrame {
    pub filter_type: String,
    pub edges: Option<Edges>,
}

impl Default for FilterModeWireFrame {
    fn default() -> (r: Self)
        ensures
            r.filter_type@ == "wireFrame"@,
            r.edges is None,
    {
        Self { filter_type: default_wire_frame_filter_mode_type(), edges: None }
    }
}

#[derive(Default, Debug)]
pub struct Edges {
    pub type_field: String,
    pub color: Option<Vec<i64>>,
    pub size: Option<Float64>,
    pub transparency: Option<i64>,
    pub extension_length: Option<i64>,
}

#[derive(Debug)]
pub enum FilterMode {
    Solid(FilterModeSolid),
    WireFrame(FilterModeWireFrame),
}

impl Default for FilterMode {
    fn default() -> (r: Self)
        ensures
            r matches FilterMode::Solid(mode) && mode.filter_type@ == "solid"@,
    {
        Self::Solid(FilterModeSolid::default())
    }
}

} // verus!
