use i3s::bld;
use i3s::cmn;
use i3s::ieee::{Float32, Float64, MINUS_ONE_64, ONE_32, ONE_64, QUARTER_32};
use i3s::pcl;
use i3s::psl;

#[test]
fn bit_patterns_are_those_of_the_numbers() {
    assert_eq!(ONE_32, 1.0f32.to_bits());
    assert_eq!(QUARTER_32, 0.25f32.to_bits());
    assert_eq!(ONE_64, 1.0f64.to_bits());
    assert_eq!(MINUS_ONE_64, (-1.0f64).to_bits());
    assert_eq!(Float32::zero().bits, 0.0f32.to_bits());
    assert_eq!(Float64::zero().bits, 0.0f64.to_bits());
    assert_eq!(Float32::one().bits, 1.0f32.to_bits());
    assert_eq!(Float32::from_bits(7).bits, 7);
    assert_eq!(Float64::from_bits(9).bits, 9);
    assert_eq!(Float32::default(), Float32::zero());
    assert_eq!(Float64::default(), Float64::zero());
}

#[test]
fn geometry_attribute_descriptions() {
    let position = cmn::GeometryPosition::new();
    assert_eq!((position.dtype.as_str(), position.component), ("Float32", 3));
    let normal = cmn::GeometryNormal::new();
    assert_eq!((normal.dtype.as_str(), normal.component), ("Float32", 3));
    let uv = cmn::GeometryUV::new();
    assert_eq!((uv.dtype.as_str(), uv.component), ("Float32", 2));
    let color = cmn::GeometryColor::new();
    assert_eq!((color.dtype.as_str(), color.component), ("Uint8", 3));
    let feature = cmn::GeometryFeatureID::new();
    assert_eq!((feature.dtype.as_str(), feature.component, feature.binding.as_str()), ("UInt32", 1, "per-feature"));
}

#[test]
fn face_range_takes_the_component_given() {
    let given = cmn::GeometryFaceRange::new(Some(2));
    assert_eq!((given.dtype.as_str(), given.component, given.binding.as_str()), ("Uint32", 2, "per-feature"));
    let none = cmn::GeometryFaceRange::new(None);
    assert_eq!((none.dtype.as_str(), none.component, none.binding.as_str()), ("Uint32", -1, "per-feature"));
    assert_eq!(cmn::GeometryFaceRange::default().component, -1);
}

#[test]
fn defaults_of_the_geometry_records() {
    assert_eq!(cmn::GeometryPosition::default().component, 3);
    assert_eq!(cmn::GeometryNormal::default().dtype, "Float32");
    assert_eq!(cmn::GeometryUV::default().component, 2);
    assert_eq!(cmn::GeometryColor::default().dtype, "Uint8");
    assert_eq!(cmn::GeometryFeatureID::default().binding, "per-feature");
    let buffer = cmn::GeometryBuffer::default();
    assert_eq!(buffer.offset, 0);
    assert_eq!(buffer.uv0.component, 2);
    assert_eq!(buffer.compressed_attributes.encoding, "draco");
    let definition = cmn::GeometryDefinition::default();
    assert!(definition.geometry_buffers.is_empty());
    assert_eq!(definition.topology, "triangle");
}

#[test]
fn compressed_attributes_are_draco() {
    let attributes = cmn::CompressedAttributes::new();
    assert_eq!(attributes.encoding, "draco");
    assert!(attributes.attributes.is_none());
    assert_eq!(cmn::CompressedAttributes::default().encoding, "draco");
}

#[test]
fn default_texts_of_the_mesh_profiles() {
    assert_eq!(cmn::default_time_encoding(), "ECMA_ISO8601");
    assert_eq!(cmn::default_geometry_definition_topology(), "triangle");
    assert_eq!(cmn::default_compressed_attributes_encoding(), "draco");
    assert_eq!(cmn::default_cull_face(), "none");
    assert_eq!(cmn::default_root_node_path(), "./nodes/root");
    assert!(cmn::default_children().is_empty());
}

#[test]
fn default_numbers_of_the_materials() {
    assert_eq!(f32::from_bits(cmn::default_texture_value().bits), 1.0);
    assert_eq!(f32::from_bits(cmn::default_alpha_cutoff().bits), 0.25);
    let white: Vec<f32> = cmn::default_base_color_factor().iter().map(|c| f32::from_bits(c.bits)).collect();
    assert_eq!(white, vec![1.0, 1.0, 1.0, 1.0]);
}

#[test]
fn default_material() {
    let material = cmn::MaterialDefinitions::default();
    assert_eq!(f32::from_bits(material.alpha_cutoff.bits), 0.25);
    assert_eq!(material.cull_face, "none");
    assert_eq!(material.alpha_mode, "");
    assert!(!material.double_sided);
    assert!(material.normal_texture.is_none());
    assert!(material.occlusion_texture.is_none());
    assert!(material.emissive_texture.is_none());
    assert!(material.emissive_factor.is_none());
    let pbr = material.pbr_metallic_roughness;
    assert_eq!(f32::from_bits(pbr.metallic_factor.bits), 1.0);
    assert_eq!(f32::from_bits(pbr.roughness_factor.bits), 1.0);
    assert!(pbr.base_color_factor.iter().all(|c| f32::from_bits(c.bits) == 1.0));
    assert!(pbr.base_color_texture.is_none());
    assert!(pbr.metallic_roughness_texture.is_none());
}

#[test]
fn default_material_texture() {
    let texture = cmn::MaterialTexture::default();
    assert_eq!(texture.texture_set_definition_id, -1);
    assert_eq!(f32::from_bits(texture.factor.bits), 1.0);
}

#[test]
fn default_mesh_parts_are_absent() {
    let material = cmn::MeshMaterial::default();
    assert_eq!((material.definition, material.resource, material.texel_count_hint), (-1, -1, -1));
    let geometry = cmn::MeshGeometry::default();
    assert_eq!(
        (geometry.definition, geometry.resource, geometry.vertex_count, geometry.feature_count),
        (-1, -1, 0, 0)
    );
    assert_eq!(cmn::MeshAttribute::default().resource, -1);
}

#[test]
fn default_attribute_value() {
    let value = cmn::AttributeValue::default();
    assert_eq!(value.value_type, "");
    assert_eq!(value.encoding, "");
    assert_eq!(value.time_encoding, "ECMA_ISO8601");
    assert!(value.values_per_element.is_none());
}

#[test]
fn default_full_extent_is_minus_one() {
    let extent = cmn::FullExtent::default();
    for bound in [extent.xmin, extent.xmax, extent.ymin, extent.ymax, extent.zmin, extent.zmax] {
        assert_eq!(f64::from_bits(bound.bits), -1.0);
    }
    assert!(extent.spatial_reference.is_none());
}

#[test]
fn default_feature_data_is_zero() {
    let feature = cmn::FeatureData::default();
    assert_eq!(feature.id, 0);
    assert!(feature.position.is_empty());
    assert!(feature.pivot_offset.iter().all(|c| f64::from_bits(c.bits) == 0.0));
    assert!(feature.mbb.iter().all(|c| f64::from_bits(c.bits) == 0.0));
    assert_eq!(feature.layer, "");
    assert!(feature.attributes.id.is_none() && feature.attributes.face_range.is_none());
    assert_eq!(feature.geometries.id, 0);
}

#[test]
fn default_geometry_is_an_empty_reference() {
    let geometry = cmn::Geometry::default();
    assert_eq!(geometry.id, 0);
    assert_eq!(geometry.geometry_type, "");
    assert_eq!(geometry.transformation.len(), 16);
    assert!(geometry.transformation.iter().all(|c| f64::from_bits(c.bits) == 0.0));
    match geometry.params {
        cmn::GeometryParams::Reference(reference) => {
            assert_eq!(reference.href, "");
            assert!(reference.face_range.is_none());
        }
        _ => panic!("the default parameters are a reference"),
    }
    assert!(matches!(cmn::GeometryParams::default(), cmn::GeometryParams::Reference(_)));
}

#[test]
fn default_node_page_definition() {
    let definition = cmn::NodePageDefinition::default();
    assert_eq!(definition.nodes_per_page, 64);
    assert_eq!(cmn::default_nodes_per_page(), 64);
    assert_eq!(definition.root_index, 0);
    assert_eq!(cmn::SceneLayerInformation::default().node_pages.nodes_per_page, 64);
    assert_eq!(definition.lod_selection_metric_type, "");
}

#[test]
fn default_node_is_a_parentless_leaf() {
    let node = cmn::Node::default();
    assert_eq!(node.index, 0);
    assert!(node.is_root());
    assert!(node.is_leaf());
    assert!(node.mesh.is_none());
    assert!(node.geometry().is_empty());
}

#[test]
fn building_defaults() {
    assert_eq!(bld::LayerType::default().0, "Building");
    assert_eq!(bld::default_solid_filter_mode_type(), "solid");
    assert_eq!(bld::default_wire_frame_filter_mode_type(), "wireFrame");
    assert_eq!(bld::FilterModeSolid::default().filter_type, "solid");
    let wire = bld::FilterModeWireFrame::default();
    assert_eq!(wire.filter_type, "wireFrame");
    assert!(wire.edges.is_none());
    match bld::FilterMode::default() {
        bld::FilterMode::Solid(mode) => assert_eq!(mode.filter_type, "solid"),
        bld::FilterMode::WireFrame(_) => panic!("the default filter mode is solid"),
    }
    let layer = bld::SceneLayerInformation::default();
    assert_eq!(layer.layer_type.0, "Building");
    assert_eq!(f64::from_bits(layer.full_extent.xmin.bits), -1.0);
}

#[test]
fn point_cloud_defaults() {
    assert_eq!(pcl::default_layer_type(), "PointCloud");
    assert_eq!(pcl::default_nodes_per_page(), 64);
    assert_eq!(pcl::default_bounding_volume_type(), "obb");
    assert_eq!(pcl::default_lod_selection_metric_type(), "density-threshold");
    assert_eq!(pcl::default_encoding(), "lepcc-xyz");
    assert_eq!(String::from(pcl::GeometryType::default()), "Points");
    assert_eq!(String::from(pcl::Topology::default()), "PerAttributeArray");
    assert_eq!(String::from(pcl::GeometryType("Mesh".to_string())), "Mesh");
    let algorithm = pcl::Algorithm::default();
    assert_eq!(algorithm.type_field, "");
    assert_eq!(f64::from_bits(algorithm.scale_factor.bits), 1.0);
}

#[test]
fn point_cloud_index_defaults() {
    let index = pcl::Index::default();
    assert_eq!(index.node_version, 0);
    assert_eq!(index.nodes_per_page, 64);
    assert_eq!(index.bounding_volume_type, "obb");
    assert_eq!(index.lod_selection_metric_type, "density-threshold");
    assert!(index.href.is_none());
}

#[test]
fn point_cloud_descriptor_defaults() {
    let layer = pcl::SceneLayerInformation::default();
    assert_eq!(layer.id, 0);
    assert_eq!(layer.layer_type, "PointCloud");
    assert_eq!(layer.name, "");
    assert!(layer.attribute_storage_info.is_empty());
    assert!(layer.spatial_reference.is_none() && layer.alias.is_none() && layer.desc.is_none());
    assert!(layer.copyright_text.is_none() && layer.capabilities.is_none());
    assert!(layer.height_model_info.is_none() && layer.service_update_time_stamp.is_none());
    assert!(layer.drawing_info.is_none() && layer.elevation_info.is_none() && layer.fields.is_none());
    assert_eq!(layer.store.profile, "");
    assert_eq!(layer.store.version, "");
    assert!(layer.store.extent.iter().all(|c| f64::from_bits(c.bits) == 0.0));
    assert_eq!(layer.store.index.nodes_per_page, 64);
    assert_eq!(layer.store.default_geometry_schema.geometry_type.0, "Points");
    assert_eq!(layer.store.default_geometry_schema.topology.0, "PerAttributeArray");
    assert_eq!(layer.store.default_geometry_schema.encoding, "");
    assert_eq!(layer.store.default_geometry_schema.vertex_attributes.position.values_per_element, 0);
    assert!(layer.store.id.is_none());
}

#[test]
fn point_defaults() {
    assert_eq!(psl::default_topology(), "point");
    let definition = psl::GeometryDefinition {
        topology: psl::default_topology(),
        geometry_buffers: [psl::GeometryBuffer { compressed_attributes: cmn::CompressedAttributes::new() }],
    };
    assert_eq!(definition.geometry_buffers[0].compressed_attributes.encoding, "draco");
}
