//! The records shared by the mesh profiles of a scene layer, and the paths
//! of a node's resources.

use vstd::prelude::*;
use vstd::string::*;
use crate::error::I3SError;
use crate::ieee::{Float32, Float64, MINUS_ONE_64, ONE_32, QUARTER_32};
use crate::text::{push_int, text_of};

verus! {

/// The factor of a texture where the document gives none: `1.0`.
pub fn default_texture_value() -> (r: Float32)
    ensures
        r.bits == ONE_32,
{
    Float32::one()
}

/// The alpha cutoff where the document gives none: `0.25`.
pub fn default_alpha_cutoff() -> (r: Float32)
    ensures
        r.bits == QUARTER_32,
{
    Float32::from_bits(QUARTER_32)
}

/// The face culling where the document gives none.
pub fn default_cull_face() -> (r: String)
    ensures
        r@ == "none"@,
{
    "none".to_owned()
}

/// The base colour where the document gives none: opaque white.
pub fn default_base_color_factor() -> (r: [Float32; 4])
    ensures
        forall|i: int| 0 <= i < 4 ==> r[i].bits == ONE_32,
{
    [Float32::one(), Float32::one(), Float32::one(), Float32::one()]
}

/// A reference from a material to one of the layer's texture sets.
#[derive(Debug, Clone)]
pub struct MaterialTexture {
    pub texture_set_definition_id: i32,
    pub factor: Float32,
}

impl Default for MaterialTexture {
    fn default() -> (r: Self)
        ensures
            r.texture_set_definition_id == -1,
            r.factor.bits == ONE_32,
    {
        Self { texture_set_definition_id: -1, factor: default_texture_value() }
    }
}

/// The metallic-roughness model of a material.
#[derive(Debug, Clone)]
pub struct PbrMetallicRoughness {
    pub base_color_factor: [Float32; 4],
    pub metallic_factor: Float32,
    pub roughness_factor: Float32,
    pub metallic_roughness_texture: Option<MaterialTexture>,
    pub base_color_texture: Option<MaterialTexture>,
}

impl Default for PbrMetallicRoughness {
    fn default() -> (r: Self)
        ensures
            forall|i: int| 0 <= i < 4 ==> r.base_color_factor[i].bits == ONE_32,
            r.metallic_factor.bits == ONE_32,
            r.roughness_factor.bits == ONE_32,
            r.base_color_texture is None,
            r.metallic_roughness_texture is None,
    {
        Self {
            base_color_factor: default_base_color_factor(),
            metallic_factor: Float32::one(),
            roughness_factor: Float32::one(),
            base_color_texture: None,
            metallic_roughness_texture: None,
        }
    }
}

/// One material of the layer.
#[derive(Debug, Clone)]
pub struct MaterialDefinitions {
    pub pbr_metallic_roughness: PbrMetallicRoughness,
    pub normal_texture: Option<MaterialTexture>,
    pub occlusion_texture: Option<MaterialTexture>,
    pub emissive_texture: Option<MaterialTexture>,
    pub emissive_factor: Option<[Float32; 3]>,
    pub alpha_mode: String,
    pub alpha_cutoff: Float32,
    pub double_sided: bool,
    pub cull_face: String,
}

impl MaterialDefinitions {
    /// The texture set of the base colour, where the material has a
    /// base-colour texture.
    pub open spec fn base_color_texture_set(&self) -> Option<int> {
        match self.pbr_metallic_roughness.base_color_texture {
            Some(texture) => Some(texture.texture_set_definition_id as int),
            None => None,
        }
    }
}

impl Default for MaterialDefinitions {
    fn default() -> (r: Self)
        ensures
            forall|i: int| 0 <= i < 4 ==> r.pbr_metallic_roughness.base_color_factor[i].bits == ONE_32,
            r.pbr_metallic_roughness.metallic_factor.bits == ONE_32,
            r.pbr_metallic_roughness.roughness_factor.bits == ONE_32,
            r.pbr_metallic_roughness.base_color_texture is None,
            r.pbr_metallic_roughness.metallic_roughness_texture is None,
            r.normal_texture is None,
            r.occlusion_texture is None,
            r.emissive_texture is None,
            r.emissive_factor is None,
            r.alpha_mode@ == Seq::<char>::empty(),
            r.alpha_cutoff.bits == QUARTER_32,
            !r.double_sided,
            r.cull_face@ == "none"@,
    {
        Self {
            pbr_metallic_roughness: PbrMetallicRoughness::default(),
            normal_texture: None,
            occlusion_texture: None,
            emissive_texture: None,
            emissive_factor: None,
            alpha_mode: String::new(),
            alpha_cutoff: default_alpha_cutoff(),
            double_sided: false,
            cull_face: default_cull_face(),
        }
    }
}

/// One encoding of a texture: its file stem and its format.
#[derive(Default, Debug, Clone)]
pub struct TextureSetDefinitionFormat {
    pub name: String,
    pub format: String,
}

impl TextureSetDefinitionFormat {
    /// The file name of the encoding: the stem, a dot, the format.
    pub open spec fn spec_file_name(&self) -> Seq<char> {
        self.name@ + "."@ + self.format@
    }

    /// The file name of the encoding: the stem, a dot, the format.
    pub fn file_name(&self) -> (r: String)
        ensures
            r@ == self.spec_file_name(),
    {
        let mut file: String = self.name.clone();
        file.append(".");
        file.append(self.format.as_str());
        file
    }
}

/// The encodings in which one texture is stored: the uncompressed one first,
/// then, where there is one, the compressed one.
#[derive(Default, Debug, Clone)]
pub struct TextureSetDefinition {
    pub formats: Vec<TextureSetDefinitionFormat>,
    pub atlas: Option<bool>,
}

impl TextureSetDefinition {
    /// Whether the set has a compressed encoding: not with one format, yes
    /// with two. Any other number of formats is refused with
    /// `InvalidReference`.
    pub fn has_compressed_textures(&self) -> (r: Result<bool, I3SError>)
        ensures
            self.formats.len() == 1 ==> r == Ok::<bool, I3SError>(false),
            self.formats.len() == 2 ==> r == Ok::<bool, I3SError>(true),
            self.formats.len() != 1 && self.formats.len() != 2 ==> r == Err::<bool, I3SError>(
                I3SError::InvalidReference,
            ),
    {
        let count: usize = self.formats.len();
        if count == 1 {
            Ok(false)
        } else if count == 2 {
            Ok(true)
        } else {
            Err(I3SError::InvalidReference)
        }
    }

    /// The file names of all encodings, in the order of `formats`.
    pub fn file_names(&self) -> (r: Vec<String>)
        ensures
            r.len() == self.formats.len(),
            forall|i: int| 0 <= i < r.len() ==> (#[trigger] r[i])@ == self.formats[i].spec_file_name(),
    {
        let mut names: Vec<String> = Vec::new();
        let mut i: usize = 0;
        while i < self.formats.len()
            invariant
                i <= self.formats.len(),
                names.len() == i,
                forall|j: int| 0 <= j < i ==> (#[trigger] names[j])@ == self.formats[j].spec_file_name(),
            decreases self.formats.len() - i,
        {
            names.push(self.formats[i].file_name());
            i = i + 1;
        }
        names
    }
}

/// The material that a node's mesh is drawn with. A `resource` of `-1` says
/// that the node has none.
#[derive(Debug, Clone)]
pub struct MeshMaterial {
    pub definition: isize,
    pub resource: isize,
    pub texel_count_hint: i32,
}

/// The path of a texture file: the node's texture folder, the stem of the
/// encoding and, where asked for, a dot and the format.
pub open spec fn texture_path(resource: int, format: TextureSetDefinitionFormat, with_ext: bool) -> Seq<char> {
    "nodes/"@ + crate::text::int_text(resource) + "/textures/"@ + (if with_ext {
        format.spec_file_name()
    } else {
        format.name@
    })
}

impl MeshMaterial {
    /// What `resource_path` returns, over the views of the two definition
    /// lists.
    pub open spec fn spec_resource_path(
        &self,
        material_definitions: Seq<MaterialDefinitions>,
        texture_set_definitions: Seq<TextureSetDefinition>,
        compressed: bool,
        with_ext: bool,
    ) -> Result<Option<Seq<char>>, I3SError> {
        let slot: int = if compressed {
            1
        } else {
            0
        };
        if self.resource == -1 {
            Ok(None)
        } else if !(0 <= self.definition < material_definitions.len()) {
            Err(I3SError::InvalidReference)
        } else {
            match material_definitions[self.definition as int].base_color_texture_set() {
                None => Ok(None),
                Some(set) => if !(0 <= set < texture_set_definitions.len()) {
                    Err(I3SError::InvalidReference)
                } else if slot >= texture_set_definitions[set].formats.len() {
                    Ok(None)
                } else {
                    Ok(
                        Some(
                            texture_path(
                                self.resource as int,
                                texture_set_definitions[set].formats[slot],
                                with_ext,
                            ),
                        ),
                    )
                },
            }
        }
    }

    /// The path of the node's base-colour texture, compressed or not, with
    /// the format as extension or without.
    ///
    /// There is no path where the node has no material (`resource` is `-1`),
    /// where its material has no base-colour texture, or where the texture
    /// set lacks the encoding asked for. A `definition` outside
    /// `material_definitions`, or a texture set outside
    /// `texture_set_definitions`, is refused with `InvalidReference`.
    pub fn resource_path(
        &self,
        material_definitions: &[MaterialDefinitions],
        texture_set_definitions: &[TextureSetDefinition],
        compressed: bool,
        with_ext: bool,
    ) -> (r: Result<Option<String>, I3SError>)
        ensures
            match r {
                Ok(path) => self.spec_resource_path(
                    material_definitions@,
                    texture_set_definitions@,
                    compressed,
                    with_ext,
                ) == Ok::<Option<Seq<char>>, I3SError>(text_of(path)),
                Err(e) => self.spec_resource_path(
                    material_definitions@,
                    texture_set_definitions@,
                    compressed,
                    with_ext,
                ) == Err::<Option<Seq<char>>, I3SError>(e),
            },
    {
        if self.resource == -1 {
            return Ok(None);
        }
        if self.definition < 0 || self.definition as usize >= material_definitions.len() {
            return Err(I3SError::InvalidReference);
        }
        let mat_def: &MaterialDefinitions = &material_definitions[self.definition as usize];
        match &mat_def.pbr_metallic_roughness.base_color_texture {
            None => Ok(None),
            Some(base_color_tex) => {
                let id: i32 = base_color_tex.texture_set_definition_id;
                if id < 0 || id as usize >= texture_set_definitions.len() {
                    return Err(I3SError::InvalidReference);
                }
                let tex_set_def: &TextureSetDefinition = &texture_set_definitions[id as usize];
                let slot: usize = if compressed {
                    1
                } else {
                    0
                };
                if slot >= tex_set_def.formats.len() {
                    return Ok(None);
                }
                let format: &TextureSetDefinitionFormat = &tex_set_def.formats[slot];
                let mut path: String = "nodes/".to_owned();
                push_int(&mut path, self.resource as i64);
                path.append("/textures/");
                if with_ext {
                    let file: String = format.file_name();
                    path.append(file.as_str());
                } else {
                    path.append(format.name.as_str());
                }
                Ok(Some(path))
            },
        }
    }
}

impl Default for MeshMaterial {
    fn default() -> (r: Self)
        ensures
            r.definition == -1,
            r.resource == -1,
            r.texel_count_hint == -1,
    {
        Self { definition: -1, resource: -1, texel_count_hint: -1 }
    }
}

/// The geometry of a node's mesh. A `resource` of `-1` says that the node
/// has none.
#[derive(Debug, Clone)]
pub struct MeshGeometry {
    pub definition: isize,
    pub resource: isize,
    pub vertex_count: usize,
    pub feature_count: usize,
}

impl Default for MeshGeometry {
    fn default() -> (r: Self)
        ensures
            r.definition == -1,
            r.resource == -1,
            r.vertex_count == 0,
            r.feature_count == 0,
    {
        Self { definition: -1, resource: -1, vertex_count: 0, feature_count: 0 }
    }
}

impl MeshGeometry {
    /// What `resource_path` returns.
    pub open spec fn spec_resource_path(&self, compressed: bool, local: bool) -> Option<Seq<char>> {
        if self.resource == -1 {
            None
        } else {
            Some(
                "nodes/"@ + crate::text::int_text(self.resource as int) + "/geometries/"@ + (if compressed {
                    "1"@
                } else {
                    "0"@
                }) + (if local {
                    ".bin.gz"@
                } else {
                    Seq::<char>::empty()
                }),
            )
        }
    }

    /// The path of the node's geometry: buffer `1` where the compressed one
    /// is asked for, else buffer `0`; inside an archive the path ends in
    /// `.bin.gz`. There is no path if and only if `resource` is `-1`.
    pub fn resource_path(&self, compressed: bool, local: bool) -> (r: Option<String>)
        ensures
            text_of(r) == self.spec_resource_path(compressed, local),
            r is None <==> self.resource == -1,
    {
        if self.resource == -1 {
            return None;
        }
        let mut geometries_path: String = "nodes/".to_owned();
        push_int(&mut geometries_path, self.resource as i64);
        geometries_path.append("/geometries/");
        if compressed {
            geometries_path.append("1");
        } else {
            geometries_path.append("0");
        }
        if local {
            geometries_path.append(".bin.gz");
        }
        Some(geometries_path)
    }
}

/// The attributes of a node's mesh. A `resource` of `-1` says that the node
/// has none.
#[derive(Debug, Clone)]
pub struct MeshAttribute {
    pub resource: isize,
}

impl Default for MeshAttribute {
    fn default() -> (r: Self)
        ensures
            r.resource == -1,
    {
        Self { resource: -1 }
    }
}

impl MeshAttribute {
    /// What `resource_path` returns.
    pub open spec fn spec_resource_path(&self) -> Option<Seq<char>> {
        if self.resource == -1 {
            None
        } else {
            Some("nodes/"@ + crate::text::int_text(self.resource as int) + "/attributes"@)
        }
    }

    /// The path of the node's attributes. There is no path if and only if
    /// `resource` is `-1`.
    pub fn resource_path(&self) -> (r: Option<String>)
        ensures
            text_of(r) == self.spec_resource_path(),
            r is None <==> self.resource == -1,
    {
        if self.resource == -1 {
            return None;
        }
        let mut path: String = "nodes/".to_owned();
        push_int(&mut path, self.resource as i64);
        path.append("/attributes");
        Some(path)
    }
}

/// What a node refers to for drawing: material, geometry and attributes.
#[derive(Debug, Clone)]
pub struct Mesh {
    pub material: MeshMaterial,
    pub geometry: MeshGeometry,
    pub attribute: MeshAttribute,
}

impl Default for Mesh {
    fn default() -> (r: Self)
        ensures
            r.material.definition == -1,
            r.material.resource == -1,
            r.material.texel_count_hint == -1,
            r.geometry.definition == -1,
            r.geometry.resource == -1,
            r.geometry.vertex_count == 0,
            r.geometry.feature_count == 0,
            r.attribute.resource == -1,
    {
        Self {
            material: MeshMaterial::default(),
            geometry: MeshGeometry::default(),
            attribute: MeshAttribute::default(),
        }
    }
}

impl Mesh {
    /// The path of the base-colour texture: see `MeshMaterial::resource_path`.
    pub fn material_resource_path(
        &self,
        material_definitions: &[MaterialDefinitions],
        texture_set_definitions: &[TextureSetDefinition],
        compressed: bool,
        with_ext: bool,
    ) -> (r: Result<Option<String>, I3SError>)
        ensures
            match r {
                Ok(path) => self.material.spec_resource_path(
                    material_definitions@,
                    texture_set_definitions@,
                    compressed,
                    with_ext,
                ) == Ok::<Option<Seq<char>>, I3SError>(text_of(path)),
                Err(e) => self.material.spec_resource_path(
                    material_definitions@,
                    texture_set_definitions@,
                    compressed,
                    with_ext,
                ) == Err::<Option<Seq<char>>, I3SError>(e),
            },
    {
        self.material.resource_path(material_definitions, texture_set_definitions, compressed, with_ext)
    }

    /// The path of the geometry: see `MeshGeometry::resource_path`.
    pub fn geometry_resource_path(&self, compressed: bool, local: bool) -> (r: Option<String>)
        ensures
            text_of(r) == self.geometry.spec_resource_path(compressed, local),
            r is None <==> self.geometry.resource == -1,
    {
        self.geometry.resource_path(compressed, local)
    }

    /// The path of the attributes: see `MeshAttribute::resource_path`.
    pub fn attribute_resource_path(&self) -> (r: Option<String>)
        ensures
            text_of(r) == self.attribute.spec_resource_path(),
            r is None <==> self.attribute.resource == -1,
    {
        self.attribute.resource_path()
    }

    /// Whether the mesh refers to a material.
    pub fn has_material(&self) -> (r: bool)
        ensures
            r == (self.material.resource != -1),
    {
        self.material.resource != -1
    }

    /// Whether the mesh refers to a geometry.
    pub fn has_geometry(&self) -> (r: bool)
        ensures
            r == (self.geometry.resource != -1),
    {
        self.geometry.resource != -1
    }

    /// Whether the mesh refers to attributes.
    pub fn has_attribute(&self) -> (r: bool)
        ensures
            r == (self.attribute.resource != -1),
    {
        self.attribute.resource != -1
    }
}

impl MeshMaterial {
    /// Whether the references of the material lead to an encoding: the
    /// definition is one of the layer's materials, that material has a
    /// base-colour texture, its texture set is one of the layer's, and the
    /// set holds the encoding asked for.
    pub open spec fn resolves(
        &self,
        material_definitions: Seq<MaterialDefinitions>,
        texture_set_definitions: Seq<TextureSetDefinition>,
        compressed: bool,
    ) -> bool {
        &&& 0 <= self.definition < material_definitions.len()
        &&& material_definitions[self.definition as int].base_color_texture_set() matches Some(set)
        &&& 0 <= set < texture_set_definitions.len()
        &&& (if compressed {
            1int
        } else {
            0int
        }) < texture_set_definitions[set].formats@.len()
    }
}

/// Sentinel resolution. The geometry and the attributes of a mesh have no
/// path if and only if their `resource` is `-1`. A material whose `resource`
/// is `-1` has no path either.
pub proof fn lemma_sentinel_resolution(
    mesh: Mesh,
    material_definitions: Seq<MaterialDefinitions>,
    texture_set_definitions: Seq<TextureSetDefinition>,
    compressed: bool,
    local: bool,
    with_ext: bool,
)
    ensures
        mesh.geometry.spec_resource_path(compressed, local) is None <==> mesh.geometry.resource == -1,
        mesh.attribute.spec_resource_path() is None <==> mesh.attribute.resource == -1,
        mesh.material.resource == -1 ==> mesh.material.spec_resource_path(
            material_definitions,
            texture_set_definitions,
            compressed,
            with_ext,
        ) == Ok::<Option<Seq<char>>, I3SError>(None),
{
}

/// Sentinel resolution for materials. Where the references of a material
/// lead to an encoding, the material has no path if and only if its
/// `resource` is `-1`, and the lookup does not fail.
pub proof fn lemma_material_sentinel(
    material: MeshMaterial,
    material_definitions: Seq<MaterialDefinitions>,
    texture_set_definitions: Seq<TextureSetDefinition>,
    compressed: bool,
    with_ext: bool,
)
    requires
        material.resolves(material_definitions, texture_set_definitions, compressed),
    ensures
        material.spec_resource_path(material_definitions, texture_set_definitions, compressed, with_ext) is Ok,
        material.spec_resource_path(
            material_definitions,
            texture_set_definitions,
            compressed,
            with_ext,
        )->Ok_0 is None <==> material.resource == -1,
{
}

/// The path of the scene-layer descriptor below the base of a service.
pub fn rest_path() -> (r: String)
    ensures
        r@ == "layers/0"@,
{
    "layers/0".to_owned()
}

/// The descriptor of a mesh layer (integrated mesh or 3D object).
#[derive(Default, Debug, Clone)]
pub struct SceneLayerInformation {
    pub id: usize,
    pub layer_type: String,
    pub capabilities: Vec<String>,
    pub store: Store,
    pub geometry_definitions: Vec<GeometryDefinition>,
    pub node_pages: NodePageDefinition,
    pub name: String,
    pub full_extent: Option<FullExtent>,
    pub spatial_reference: Option<SpatialReference>,
    pub alias: Option<String>,
    pub service_update_time_stamp: Option<ServiceUpdateTimeStamp>,
    pub height_model_info: Option<HeightModelInfo>,
    pub drawing_info: Option<DrawingInfo>,
    pub material_definitions: Option<Vec<MaterialDefinitions>>,
    pub texture_set_definitions: Option<Vec<TextureSetDefinition>>,
    pub description: Option<String>,
    pub copyright_text: Option<String>,
    pub href: Option<String>,
    pub cached_drawing_info: Option<CachedDrawingInfo>,
    pub disable_pop_up: Option<bool>,
    pub attribute_storage_info: Option<Vec<AttributeStorageInfo>>,
    pub statistics_info: Option<Vec<StatisticsInfo>>,
    pub z_factor: Option<Float32>,
    pub popup_info: Option<PopupInfo>,
    pub fields: Option<Vec<Field>>,
    pub elevation_info: Option<ElevationInfo>,
}

#[derive(Default, Debug, Clone)]
pub struct ElevationInfo {
    pub mode: String,
    pub offset: Option<Float32>,
    pub unit: String,
}

#[derive(Default, Debug, Clone)]
pub struct Field {
    pub name: String,
    pub field_type: String,
    pub alias: Option<String>,
    pub domain: Option<Domain>,
}

#[derive(Default, Debug, Clone)]
pub struct Domain {
    pub domain_type: String,
    pub name: String,
    pub coded_values: Option<Vec<DomainCodedValue>>,
    pub description: String,
    pub range: Option<[Float32; 2]>,
    pub field_type: String,
    pub merge_policy: String,
    pub split_policy: String,
}

#[derive(Default, Debug, Clone)]
pub struct DomainCodedValue {
    pub name: String,
    pub code: String,
}

#[derive(Default, Debug, Clone)]
pub struct PopupInfo {
    pub title: String,
    pub media_infos: Option<Vec<Option<serde_json::Value>>>,
    pub description: String,
    pub field_infos: Option<Vec<FieldInfo>>,
    pub popup_elements: Option<Vec<PopupElement>>,
    pub expression_infos: Option<Vec<Option<serde_json::Value>>>,
}

#[derive(Default, Debug, Clone)]
pub struct FieldInfo {
    pub field_name: String,
    pub visible: Option<bool>,
    pub is_editable: Option<bool>,
    pub label: String,
}

#[derive(Default, Debug, Clone)]
pub struct PopupElement {
    pub text: String,
    pub popup_element_type: String,
    pub field_infos: Option<Vec<FieldInfo>>,
}

#[derive(Default, Debug, Clone)]
pub struct StatisticsInfo {
    pub key: String,
    pub name: String,
    pub href: String,
}

#[derive(Default, Debug, Clone)]
pub struct AttributeStorageInfo {
    pub key: String,
    pub name: String,
    pub header: Vec<HeaderValue>,
    pub ordering: Option<Vec<String>>,
    pub attribute_values: Option<AttributeValue>,
    pub attribute_byte_counts: Option<AttributeValue>,
    pub object_ids: Option<AttributeValue>,
}

#[derive(Default, Debug, Clone)]
pub struct HeaderValue {
    pub value_type: String,
    pub property: String,
}

/// The encoding of time values where the document gives none.
pub fn default_time_encoding() -> (r: String)
    ensures
        r@ == "ECMA_ISO8601"@,
{
    "ECMA_ISO8601".to_owned()
}

/// How the values of one attribute are stored.
#[derive(Debug, Clone)]
pub struct AttributeValue {
    pub value_type: String,
    pub encoding: String,
    pub time_encoding: String,
    pub values_per_element: Option<Float32>,
}

impl Default for AttributeValue {
    fn default() -> (r: Self)
        ensures
            r.value_type@ == Seq::<char>::empty(),
            r.encoding@ == Seq::<char>::empty(),
            r.time_encoding@ == "ECMA_ISO8601"@,
            r.values_per_element is None,
    {
        Self {
            value_type: String::new(),
            encoding: String::new(),
            time_encoding: default_time_encoding(),
            values_per_element: None,
        }
    }
}

#[derive(Default, Debug, Clone)]
pub struct CachedDrawingInfo {
    pub color: bool,
}

#[derive(Default, Debug, Clone)]
pub struct DrawingInfo {
    pub renderer: Renderer,
    pub scale_symbols: Option<bool>,
}

#[derive(Default, Debug, Clone)]
pub struct Renderer {
    pub renderer_type: String,
    pub label: String,
    pub description: String,
    pub symbol: Option<Symbol>,
}

#[derive(Default, Debug, Clone)]
pub struct Symbol {
    pub symbol_type: String,
    pub symbol_layers: Option<Vec<SymbolLayer>>,
}

#[derive(Default, Debug, Clone)]
pub struct SymbolLayer {
    pub symbol_layer_type: String,
    pub material: Option<Material>,
}

#[derive(Default, Debug, Clone)]
pub struct Material {
    pub color: Option<Vec<i32>>,
    pub transparency: Option<i32>,
}

/// The extent of a layer in its spatial reference.
#[derive(Debug, Clone)]
pub struct FullExtent {
    pub xmin: Float64,
    pub xmax: Float64,
    pub ymin: Float64,
    pub ymax: Float64,
    pub zmin: Float64,
    pub zmax: Float64,
    pub spatial_reference: Option<SpatialReference>,
}

impl Default for FullExtent {
    /// The extent whose six bounds are all `-1.0`.
    fn default() -> (r: Self)
        ensures
            r.xmin.bits == MINUS_ONE_64,
            r.xmax.bits == MINUS_ONE_64,
            r.ymin.bits == MINUS_ONE_64,
            r.ymax.bits == MINUS_ONE_64,
            r.zmin.bits == MINUS_ONE_64,
            r.zmax.bits == MINUS_ONE_64,
            r.spatial_reference is None,
    {
        Self {
            xmin: Float64::from_bits(MINUS_ONE_64),
            xmax: Float64::from_bits(MINUS_ONE_64),
            ymin: Float64::from_bits(MINUS_ONE_64),
            ymax: Float64::from_bits(MINUS_ONE_64),
            zmin: Float64::from_bits(MINUS_ONE_64),
            zmax: Float64::from_bits(MINUS_ONE_64),
            spatial_reference: None,
        }
    }
}

#[derive(Default, Debug, Clone)]
pub struct SpatialReference {
    pub latest_vcs_wkid: Option<i32>,
    pub latest_wkid: Option<i32>,
    pub vcs_wkid: Option<i32>,
    pub wkid: Option<i32>,
    pub wkt: String,
}

/// The topology of a geometry where the document gives none.
pub fn default_geometry_definition_topology() -> (r: String)
    ensures
        r@ == "triangle"@,
{
    "triangle".to_owned()
}

#[derive(Debug, Clone)]
pub struct GeometryDefinition {
    pub geometry_buffers: Vec<GeometryBuffer>,
    pub topology: String,
}

impl Default for GeometryDefinition {
    fn default() -> (r: Self)
        ensures
            r.geometry_buffers@.len() == 0,
            r.topology@ == "triangle"@,
    {
        Self { geometry_buffers: Vec::new(), topology: default_geometry_definition_topology() }
    }
}

#[derive(Debug, Clone)]
pub struct GeometryPosition {
    pub dtype: String,
    pub component: i32,
}

impl GeometryPosition {
    /// Three `Float32` components.
    pub fn new() -> (r: Self)
        ensures
            r.dtype@ == "Float32"@,
            r.component == 3,
    {
        Self { dtype: "Float32".to_owned(), component: 3 }
    }
}

impl Default for GeometryPosition {
    fn default() -> (r: Self)
        ensures
            r.dtype@ == "Float32"@,
            r.component == 3,
    {
        Self::new()
    }
}

#[derive(Debug, Clone)]
pub struct GeometryNormal {
    pub dtype: String,
    pub component: i32,
}

impl GeometryNormal {
    /// Three `Float32` components.
    pub fn new() -> (r: Self)
        ensures
            r.dtype@ == "Float32"@,
            r.component == 3,
    {
        Self { dtype: "Float32".to_owned(), component: 3 }
    }
}

impl Default for GeometryNormal {
    fn default() -> (r: Self)
        ensures
            r.dtype@ == "Float32"@,
            r.component == 3,
    {
        Self::new()
    }
}

#[derive(Debug, Clone)]
pub struct GeometryUV {
    pub dtype: String,
    pub component: i32,
}

impl GeometryUV {
    /// Two `Float32` components.
    pub fn new() -> (r: Self)
        ensures
            r.dtype@ == "Float32"@,
            r.component == 2,
    {
        Self { dtype: "Float32".to_owned(), component: 2 }
    }
}

impl Default for GeometryUV {
    fn default() -> (r: Self)
        ensures
            r.dtype@ == "Float32"@,
            r.component == 2,
    {
        Self::new()
    }
}

#[derive(Debug, Clone)]
pub struct GeometryColor {
    pub dtype: String,
    pub component: i32,
}

impl GeometryColor {
    /// Three `Uint8` components.
    pub fn new() -> (r: Self)
        ensures
            r.dtype@ == "Uint8"@,
            r.component == 3,
    {
        Self { dtype: "Uint8".to_owned(), component: 3 }
    }
}

impl Default for GeometryColor {
    fn default() -> (r: Self)
        ensures
            r.dtype@ == "Uint8"@,
            r.component == 3,
    {
        Self::new()
    }
}

#[derive(Debug, Clone)]
pub struct GeometryFeatureID {
    pub dtype: String,
    pub component: i32,
    pub binding: String,
}

impl GeometryFeatureID {
    /// One `UInt32` component for each feature.
    pub fn new() -> (r: Self)
        ensures
            r.dtype@ == "UInt32"@,
            r.component == 1,
            r.binding@ == "per-feature"@,
    {
        Self { dtype: "UInt32".to_owned(), component: 1, binding: "per-feature".to_owned() }
    }
}

impl Default for GeometryFeatureID {
    fn default() -> (r: Self)
        ensures
            r.dtype@ == "UInt32"@,
            r.component == 1,
            r.binding@ == "per-feature"@,
    {
        Self::new()
    }
}

#[derive(Debug, Clone)]
pub struct GeometryFaceRange {
    pub dtype: String,
    pub component: i32,
    pub binding: String,
}

impl GeometryFaceRange {
    /// `Uint32` components for each feature: as many as given, `-1` where
    /// none is given.
    pub fn new(component: Option<i32>) -> (r: Self)
        ensures
            r.dtype@ == "Uint32"@,
            r.component == match component {
                Some(c) => c,
                None => -1i32,
            },
            r.binding@ == "per-feature"@,
    {
        if let Some(component) = component {
            Self { dtype: "Uint32".to_owned(), component, binding: "per-feature".to_owned() }
        } else {
            Self { dtype: "Uint32".to_owned(), component: -1, binding: "per-feature".to_owned() }
        }
    }
}

impl Default for GeometryFaceRange {
    fn default() -> (r: Self)
        ensures
            r.dtype@ == "Uint32"@,
            r.component == -1,
            r.binding@ == "per-feature"@,
    {
        Self::new(None)
    }
}

#[derive(Default, Debug, Clone)]
pub struct GeometryBuffer {
    pub offset: i32,
    pub position: GeometryPosition,
    pub normal: GeometryNormal,
    pub uv0: GeometryUV,
    pub feature_id: GeometryFeatureID,
    pub face_range: GeometryFaceRange,
    pub compressed_attributes: CompressedAttributes,
}

/// The encoding of compressed attributes where the document gives none.
pub fn default_compressed_attributes_encoding() -> (r: String)
    ensures
        r@ == "draco"@,
{
    "draco".to_owned()
}

#[derive(Debug, Clone)]
pub struct CompressedAttributes {
    pub encoding: String,
    pub attributes: Option<Vec<String>>,
}

impl CompressedAttributes {
    /// Draco encoding, with no attribute listed.
    pub fn new() -> (r: Self)
        ensures
            r.encoding@ == "draco"@,
            r.attributes is None,
    {
        Self { encoding: default_compressed_attributes_encoding(), attributes: None }
    }
}

impl Default for CompressedAttributes {
    fn default() -> (r: Self)
        ensures
            r.encoding@ == "draco"@,
            r.attributes is None,
    {
        Self::new()
    }
}

#[derive(Default, Debug, Clone)]
pub struct GeometryBufferMetadata {
    pub dtype: String,
    pub component: i32,
    pub binding: String,
    pub encoding: String,
}

#[derive(Default, Debug, Clone)]
pub struct HeightModelInfo {
    pub height_model: String,
    pub vert_crs: String,
    pub height_unit: String,
}

/// The number of nodes in a page where the document gives none.
pub fn default_nodes_per_page() -> (r: u32)
    ensures
        r == 64,
{
    64
}

/// How the nodes of a layer are paged, and which node is the root.
#[derive(Debug, Clone)]
pub struct NodePageDefinition {
    /// The number of nodes in every page but the last; never zero in a
    /// sound document.
    pub nodes_per_page: u32,
    pub lod_selection_metric_type: String,
    pub root_index: usize,
}

impl Default for NodePageDefinition {
    /// Pages of 64 nodes, with node 0 as the root.
    fn default() -> (r: Self)
        ensures
            r.nodes_per_page == 64,
            r.lod_selection_metric_type@ == Seq::<char>::empty(),
            r.root_index == 0,
    {
        Self { nodes_per_page: default_nodes_per_page(), lod_selection_metric_type: String::new(), root_index: 0 }
    }
}

#[derive(Default, Debug, Clone)]
pub struct ServiceUpdateTimeStamp {
    /// Milliseconds since the Unix epoch.
    pub last_update: u64,
}

/// The path of the root node where the document gives none.
pub fn default_root_node_path() -> (r: String)
    ensures
        r@ == "./nodes/root"@,
{
    "./nodes/root".to_owned()
}

#[derive(Default, Debug, Clone)]
pub struct Store {
    pub profile: String,
    pub version: String,
    pub root_node: String,
    pub id: String,
    pub resource_pattern: Option<Vec<String>>,
    pub extent: Option<Vec<Float64>>,
    pub index_crs: String,
    pub vertex_crs: String,
    pub normal_reference_frame: String,
    pub default_geometry_schema: Option<DefaultGeometrySchema>,
}

#[derive(Default, Debug, Clone)]
pub struct MaterialDefinition {
    pub identifier: MaterialDefinitionInfo,
}

#[derive(Default, Debug, Clone)]
pub struct MaterialDefinitionInfo {
    pub name: String,
    pub dtype: String,
    pub href: String,
    pub params: Option<MaterialParams>,
}

#[derive(Default, Debug, Clone)]
pub struct MaterialParams {
    pub render_mode: String,
    pub vertex_colors: bool,
    pub vertex_regions: bool,
    pub use_vertex_color_alpha: bool,
    pub transparency: Option<i32>,
    pub reflectivity: Option<i32>,
    pub shininess: Option<i32>,
    pub ambient: Option<Vec<i32>>,
    pub diffuse: Option<Vec<i32>>,
    pub specular: Option<Vec<Float32>>,
    pub cast_shadows: Option<bool>,
    pub receive_shadows: Option<bool>,
    pub cull_face: String,
}

#[derive(Default, Debug, Clone)]
pub struct Texture {
    pub encoding: Option<Vec<String>>,
    pub wrap: Option<Vec<String>>,
    pub atlas: Option<bool>,
    pub uv_set: String,
    pub channels: Option<Vec<String>>,
}

#[derive(Default, Debug, Clone)]
pub struct DefaultGeometrySchema {
    pub header: Vec<HeaderAttribute>,
    pub topology: String,
    pub ordering: Vec<String>,
    pub vertex_attributes: VertexAttribute,
    pub feature_attribute_order: Vec<String>,
    pub feature_attributes: FeatureAttribute,
}

#[derive(Default, Debug, Clone)]
pub struct FeatureAttribute {
    pub id: Option<AttributeValue>,
    pub face_range: Option<AttributeValue>,
}

#[derive(Default, Debug, Clone)]
pub struct GeometryAttribute {
    pub value_type: String,
    pub values_per_element: i32,
    pub byte_offset: i32,
}

#[derive(Default, Debug, Clone)]
pub struct HeaderAttribute {
    pub property: String,
    pub dtype: String,
}

#[derive(Default, Debug, Clone)]
pub struct VertexAttribute {
    pub position: Option<GeometryAttribute>,
    pub uv0: Option<GeometryAttribute>,
    pub normal: Option<GeometryAttribute>,
    pub color: Option<GeometryAttribute>,
    pub region: Option<GeometryAttribute>,
}

/// The archive's `metadata.json`.
#[derive(Default, Debug, Clone)]
pub struct Metadata {
    pub i3s_version: Option<String>,
    pub node_count: Option<usize>,
    pub folder_pattern: Option<String>,
}

#[derive(Debug, Clone)]
pub struct FeatureData {
    pub id: usize,
    pub position: Vec<Float64>,
    pub pivot_offset: [Float64; 3],
    pub mbb: [Float64; 6],
    pub layer: String,
    pub attributes: FeatureAttribute,
    pub geometries: Geometry,
}

impl Default for FeatureData {
    /// The feature with id `0`, no position, and zero for every coordinate.
    fn default() -> (r: Self)
        ensures
            r.id == 0,
            r.position@.len() == 0,
            forall|i: int| 0 <= i < 3 ==> r.pivot_offset[i].bits == 0,
            forall|i: int| 0 <= i < 6 ==> r.mbb[i].bits == 0,
            r.layer@ == Seq::<char>::empty(),
            r.attributes.id is None,
            r.attributes.face_range is None,
            r.geometries.id == 0,
            r.geometries.params is Reference,
    {
        Self {
            id: 0,
            position: Vec::new(),
            pivot_offset: [Float64::zero(), Float64::zero(), Float64::zero()],
            mbb: [
                Float64::zero(),
                Float64::zero(),
                Float64::zero(),
                Float64::zero(),
                Float64::zero(),
                Float64::zero(),
            ],
            layer: String::new(),
            attributes: FeatureAttribute { id: None, face_range: None },
            geometries: Geometry::default(),
        }
    }
}

#[derive(Debug, Clone)]
pub struct Geometry {
    pub id: usize,
    pub geometry_type: String,
    pub transformation: [Float64; 16],
    pub params: GeometryParams,
}

impl Default for Geometry {
    /// The geometry with id `0`, the all-zero transformation and an empty
    /// reference.
    fn default() -> (r: Self)
        ensures
            r.id == 0,
            r.geometry_type@ == Seq::<char>::empty(),
            forall|i: int| 0 <= i < 16 ==> r.transformation[i].bits == 0,
            r.params is Reference,
    {
        Self {
            id: 0,
            geometry_type: String::new(),
            transformation: [
                Float64::zero(),
                Float64::zero(),
                Float64::zero(),
                Float64::zero(),
                Float64::zero(),
                Float64::zero(),
                Float64::zero(),
                Float64::zero(),
                Float64::zero(),
                Float64::zero(),
                Float64::zero(),
                Float64::zero(),
                Float64::zero(),
                Float64::zero(),
                Float64::zero(),
                Float64::zero(),
            ],
            params: GeometryParams::default(),
        }
    }
}

impl Default for GeometryParams {
    fn default() -> (r: Self)
        ensures
            r is Reference,
    {
        Self::Reference(
            GeometryReferenceParams {
                href: String::new(),
                geometry_type: String::new(),
                face_range: None,
                lod_geometry: None,
            },
        )
    }
}

#[derive(Debug, Clone)]
pub enum GeometryParams {
    Reference(GeometryReferenceParams),
    Vested(VestedGeometryParams),
    SingleComponent(SingleComponentParams),
}

#[derive(Default, Debug, Clone)]
pub struct GeometryReferenceParams {
    pub href: String,
    pub geometry_type: String,
    pub face_range: Option<Vec<i32>>,
    pub lod_geometry: Option<bool>,
}

#[derive(Default, Debug, Clone)]
pub struct VestedGeometryParams {
    pub geometry_type: String,
    pub topology: String,
    pub vertex_attributes: VertexAttribute,
    pub faces: GeometryAttribute,
}

#[derive(Default, Debug, Clone)]
pub struct SingleComponentParams {
    pub id: usize,
    pub material: String,
    pub texture: String,
    pub material_id: Option<usize>,
    pub texture_id: Option<[usize; 1]>,
    pub region_id: Option<[usize; 1]>,
}

#[derive(Default, Debug, Clone)]
pub struct Statistics {
    pub stats: AttributeStatistics,
}

#[derive(Default, Debug, Clone)]
pub struct AttributeStatistics {
    pub total_values_count: Option<usize>,
    pub min: Option<Float32>,
    pub max: Option<Float32>,
    pub min_time_str: String,
    pub max_time_str: String,
    pub count: Option<usize>,
    pub sum: Option<Float32>,
    pub avg: Option<Float32>,
    pub stddev: Option<Float32>,
    pub variance: Option<Float32>,
    pub histogram: Option<Histogram>,
    pub most_frequent_values: Option<Vec<ValueCount>>,
}

#[derive(Default, Debug, Clone)]
pub struct Histogram {
    pub minimum: Float64,
    pub maximum: Float64,
    /// At most 256 counts.
    pub counts: Vec<u16>,
}

#[derive(Default, Debug, Clone)]
pub struct ValueCount {
    pub value: String,
    pub count: usize,
}

/// An oriented bounding box.
#[derive(Default, Debug, Clone)]
pub struct OBB {
    pub center: [Float64; 3],
    pub half_size: [Float64; 3],
    pub quanternion: Option<[Float64; 4]>,
}

/// No children: what a node has where the document lists none.
pub fn default_children() -> (r: Vec<usize>)
    ensures
        r@.len() == 0,
{
    Vec::new()
}

/// One node of the scene's spatial hierarchy.
#[derive(Default, Debug, Clone)]
pub struct Node {
    pub index: usize,
    pub obb: OBB,
    pub children: Vec<usize>,
    pub parent: Option<usize>,
    pub lod_threshold: Option<Float32>,
    pub mesh: Option<Mesh>,
    /// The geometry buffer, empty until one is loaded.
    pub geometry: Vec<u8>,
    /// The texture, empty until one is loaded.
    pub texture: Vec<u8>,
}

impl Node {
    /// Whether the node has no parent.
    pub fn is_root(&self) -> (r: bool)
        ensures
            r == (self.parent is None),
    {
        self.parent.is_none()
    }

    /// Whether the node has no children.
    pub fn is_leaf(&self) -> (r: bool)
        ensures
            r == (self.children@.len() == 0),
    {
        self.children.len() == 0
    }

    /// The geometry that the node holds. Only a root may hold none.
    pub fn geometry(&self) -> (r: &Vec<u8>)
        requires
            self.geometry@.len() > 0 || self.parent is None,
        ensures
            r == &self.geometry,
    {
        &self.geometry
    }
}

/// One page of nodes: a fixed-size shard of the layer's node list.
#[derive(Default, Debug, Clone)]
pub struct NodePage {
    pub nodes: Vec<Node>,
}

} // verus!
