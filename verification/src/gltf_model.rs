//! Plain-value model of a parsed GLTF document.
//!
//! The GLTF crate parses bytes into its own document type; what the importer's
//! logic reads from it is collected here as plain values: names, counts,
//! indices, decoded pixel data and packed vertex data. The caller that parses
//! a document converts it into this model and hands it to the importer.

use vstd::prelude::*;

use crate::asset_uuid::AssetUuid;

verus! {

/// Size in bytes of one packed mesh vertex: position (3), normal (3),
/// tangent (4) and texture coordinate (2), one 4-byte float per component.
pub const MESH_VERTEX_SIZE_IN_BYTES: usize = 48;

/// Color space a texture's texels are meant to be sampled in.
#[derive(Clone, Copy, Debug, PartialEq, Eq, Structural)]
pub enum ColorSpace {
    Srgb,
    Linear,
}

/// Pixel layout of one decoded image, as the GLTF loader reports it.
#[derive(Clone, Copy, Debug, PartialEq, Eq, Structural)]
pub enum ImageFormat {
    R8,
    R8G8,
    R8G8B8,
    R8G8B8A8,
    R16,
    R16G16,
    R16G16B16,
    R16G16B16A16,
    R32G32B32Float,
    R32G32B32A32Float,
}

impl ImageFormat {
    /// Bytes per texel for the formats the importer converts, 0 for the wide
    /// formats it does not support.
    pub open spec fn spec_channels(self) -> int {
        match self {
            ImageFormat::R8 => 1,
            ImageFormat::R8G8 => 2,
            ImageFormat::R8G8B8 => 3,
            ImageFormat::R8G8B8A8 => 4,
            _ => 0,
        }
    }

    /// Whether the importer can convert this format to RGBA: only the
    /// one-byte-per-channel layouts.
    pub open spec fn spec_convertible(self) -> bool {
        self.spec_channels() != 0
    }

    /// Bytes per texel, 0 for the unsupported wide formats.
    pub fn channels(&self) -> (r: usize)
        ensures
            r == self.spec_channels(),
    {
        match self {
            ImageFormat::R8 => 1,
            ImageFormat::R8G8 => 2,
            ImageFormat::R8G8B8 => 3,
            ImageFormat::R8G8B8A8 => 4,
            _ => 0,
        }
    }
}

/// One decoded image of the document.
pub struct GltfImageModel {
    /// The image's name in the document, as UTF-8 bytes, if it has one.
    pub name: Option<Vec<u8>>,
    pub width: u32,
    pub height: u32,
    pub format: ImageFormat,
    /// Decoded texels, row-major, `format.spec_channels()` bytes per texel.
    pub pixels: Vec<u8>,
}

impl GltfImageModel {
    /// The pixel data matches the dimensions, and converting it to four
    /// bytes per texel stays within a vector's capacity.
    pub open spec fn wf(self) -> bool {
        &&& self.pixels@.len() == self.format.spec_channels() * (self.width * self.height)
        &&& 4 * (self.width * self.height) <= usize::MAX
    }
}

/// The texture slots of one material: each holds the index of the image the
/// slot samples, where the material uses the slot.
pub struct GltfTextureRefs {
    pub base_color_texture: Option<usize>,
    pub metallic_roughness_texture: Option<usize>,
    pub normal_texture: Option<usize>,
    pub occlusion_texture: Option<usize>,
    pub emissive_texture: Option<usize>,
}

impl GltfTextureRefs {
    /// Every slot that is used points at an image of the document.
    pub open spec fn wf(self, image_count: int) -> bool {
        &&& (self.base_color_texture is Some ==> self.base_color_texture->0 < image_count)
        &&& (self.metallic_roughness_texture is Some ==> self.metallic_roughness_texture->0
            < image_count)
        &&& (self.normal_texture is Some ==> self.normal_texture->0 < image_count)
        &&& (self.occlusion_texture is Some ==> self.occlusion_texture->0 < image_count)
        &&& (self.emissive_texture is Some ==> self.emissive_texture->0 < image_count)
    }
}

/// One material of the document. The importer's decisions read only the
/// name and which texture slots are used; the scalar factors pass through
/// untouched on the unverified side.
pub struct GltfMaterialModel {
    pub name: Option<Vec<u8>>,
    pub textures: GltfTextureRefs,
}

/// Packed vertex data of one primitive, present when the primitive carries
/// positions, normals, tangents and texture coordinates.
pub struct VertexStream {
    pub vertex_count: usize,
    /// `vertex_count` packed vertices of `MESH_VERTEX_SIZE_IN_BYTES` each.
    pub bytes: Vec<u8>,
}

impl VertexStream {
    pub open spec fn wf(self) -> bool {
        self.bytes@.len() == MESH_VERTEX_SIZE_IN_BYTES * self.vertex_count
    }
}

/// One primitive of a mesh.
pub struct GltfPrimitiveModel {
    /// Index values, where the primitive names an index accessor.
    pub indices: Option<Vec<u32>>,
    /// Packed vertices, where all four vertex attributes are present.
    pub vertices: Option<VertexStream>,
    /// The material the primitive is drawn with, if it names one.
    pub material: Option<usize>,
}

impl GltfPrimitiveModel {
    pub open spec fn wf(self, material_count: int) -> bool {
        &&& (self.vertices is Some ==> self.vertices->0.wf())
        &&& (self.material is Some ==> self.material->0 < material_count)
    }
}

/// One mesh of the document.
pub struct GltfMeshModel {
    pub name: Option<Vec<u8>>,
    pub primitives: Vec<GltfPrimitiveModel>,
}

impl GltfMeshModel {
    pub open spec fn wf(self, material_count: int) -> bool {
        forall|i: int| 0 <= i < self.primitives@.len() ==> self.primitives@[i].wf(material_count)
    }
}

/// One scene of the document. Building the scene's world produces a prefab
/// that arrives with a generated identity; the importer replaces it with the
/// persisted one where the scene was imported before.
pub struct GltfSceneModel {
    pub name: Option<Vec<u8>>,
    /// The identity the freshly built prefab was generated with.
    pub new_prefab_id: AssetUuid,
}

/// Everything the importer's logic reads from one parsed document.
pub struct GltfDocumentModel {
    pub images: Vec<GltfImageModel>,
    pub materials: Vec<GltfMaterialModel>,
    pub meshes: Vec<GltfMeshModel>,
    pub scenes: Vec<GltfSceneModel>,
}

impl GltfDocumentModel {
    /// Cross-references stay inside the document and sizes are consistent.
    pub open spec fn wf(self) -> bool {
        &&& forall|i: int| 0 <= i < self.images@.len() ==> (#[trigger] self.images@[i]).wf()
        &&& forall|i: int|
            0 <= i < self.materials@.len() ==> (#[trigger] self.materials@[i]).textures.wf(
                self.images@.len() as int,
            )
        &&& forall|i: int|
            0 <= i < self.meshes@.len() ==> (#[trigger] self.meshes@[i]).wf(
                self.materials@.len() as int,
            )
    }
}

} // verus!
