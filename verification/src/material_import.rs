//! Extraction of the materials a document carries, and the slot plan of the
//! material instance built for each.
//!
//! Of a material the importer's decisions read its name and which texture
//! slots it uses; the asset records those references and one flag per slot.
//! The material instance created alongside assigns six shader slots: the
//! packed per-material parameters, then one image per texture slot, falling
//! back to a fixed null image where the material leaves the slot empty.

use vstd::prelude::*;

use crate::gltf_model::GltfMaterialModel;
use crate::gltf_model::GltfTextureRefs;
use crate::object_id::GltfObjectId;
use crate::object_id::names_object;
use crate::object_id::object_id_for;

verus! {

/// The texture-dependent part of one imported material: which image each
/// slot samples, and per slot whether it is used at all.
#[derive(Clone, Copy, Debug)]
pub struct GltfMaterialAssetModel {
    pub base_color_texture: Option<usize>,
    pub metallic_roughness_texture: Option<usize>,
    pub normal_texture: Option<usize>,
    pub occlusion_texture: Option<usize>,
    pub emissive_texture: Option<usize>,
    pub has_base_color_texture: bool,
    pub has_metallic_roughness_texture: bool,
    pub has_normal_texture: bool,
    pub has_occlusion_texture: bool,
    pub has_emissive_texture: bool,
}

/// One material together with the identity its UUID is assigned under.
pub struct MaterialToImport {
    pub id: GltfObjectId,
    pub asset: GltfMaterialAssetModel,
}

/// Whether `asset` records exactly the texture references of `refs`, with
/// each flag telling whether its slot is used.
pub open spec fn asset_matches_refs(asset: GltfMaterialAssetModel, refs: GltfTextureRefs) -> bool {
    &&& asset.base_color_texture == refs.base_color_texture
    &&& asset.metallic_roughness_texture == refs.metallic_roughness_texture
    &&& asset.normal_texture == refs.normal_texture
    &&& asset.occlusion_texture == refs.occlusion_texture
    &&& asset.emissive_texture == refs.emissive_texture
    &&& asset.has_base_color_texture == (refs.base_color_texture is Some)
    &&& asset.has_metallic_roughness_texture == (refs.metallic_roughness_texture is Some)
    &&& asset.has_normal_texture == (refs.normal_texture is Some)
    &&& asset.has_occlusion_texture == (refs.occlusion_texture is Some)
    &&& asset.has_emissive_texture == (refs.emissive_texture is Some)
}

/// Record every material's texture references and slot flags, paired with
/// its identity: its name, or its index where it is unnamed. Materials come
/// out in document order, one per input.
pub fn extract_materials_to_import(materials: &Vec<GltfMaterialModel>) -> (r: Vec<MaterialToImport>)
    ensures
        r@.len() == materials@.len(),
        forall|i: int|
            0 <= i < materials@.len() ==> names_object(
                (#[trigger] r@[i]).id,
                materials@[i].name,
                i as usize,
            ),
        forall|i: int|
            0 <= i < materials@.len() ==> asset_matches_refs(
                (#[trigger] r@[i]).asset,
                materials@[i].textures,
            ),
{
    let mut r: Vec<MaterialToImport> = Vec::new();
    let mut i: usize = 0;
    while i < materials.len()
        invariant
            i <= materials@.len(),
            r@.len() == i,
            forall|k: int|
                0 <= k < i ==> names_object((#[trigger] r@[k]).id, materials@[k].name, k as usize),
            forall|k: int|
                0 <= k < i ==> asset_matches_refs((#[trigger] r@[k]).asset, materials@[k].textures),
        decreases materials@.len() - i,
    {
        let m = &materials[i];
        let asset = GltfMaterialAssetModel {
            base_color_texture: m.textures.base_color_texture,
            metallic_roughness_texture: m.textures.metallic_roughness_texture,
            normal_texture: m.textures.normal_texture,
            occlusion_texture: m.textures.occlusion_texture,
            emissive_texture: m.textures.emissive_texture,
            has_base_color_texture: m.textures.base_color_texture.is_some(),
            has_metallic_roughness_texture: m.textures.metallic_roughness_texture.is_some(),
            has_normal_texture: m.textures.normal_texture.is_some(),
            has_occlusion_texture: m.textures.occlusion_texture.is_some(),
            has_emissive_texture: m.textures.emissive_texture.is_some(),
        };
        let id = object_id_for(&m.name, i);
        r.push(MaterialToImport { id, asset });
        i = i + 1;
    }
    r
}

/// A shader slot of a material instance.
#[derive(Clone, Copy, Debug, PartialEq, Eq, Structural)]
pub enum SlotName {
    PerMaterialData,
    BaseColorTexture,
    MetallicRoughnessTexture,
    NormalTexture,
    OcclusionTexture,
    EmissiveTexture,
}

/// What an image slot of a material instance is bound to: an image of the
/// document, or the fixed null image where the material leaves it empty.
#[derive(Clone, Copy, Debug, PartialEq, Eq, Structural)]
pub enum SlotImage {
    Image(usize),
    NullImage,
}

/// One slot assignment of a material instance.
#[derive(Clone, Copy, Debug, PartialEq, Eq, Structural)]
pub struct MaterialInstanceSlotModel {
    pub slot_name: SlotName,
    /// The image bound to the slot; `None` for the parameter-buffer slot.
    pub image: Option<SlotImage>,
    /// Whether the slot carries the packed per-material parameters.
    pub has_buffer_data: bool,
}

/// The image bound to a texture slot: the referenced image, else the null
/// fallback.
pub open spec fn slot_image_of(tex: Option<usize>) -> SlotImage {
    match tex {
        Some(i) => SlotImage::Image(i),
        None => SlotImage::NullImage,
    }
}

/// Whether `slots` is the slot plan of a material instance for a material
/// with texture references `refs`: the parameter buffer first, then the five
/// texture slots in a fixed order, each bound to its image or to the null
/// fallback.
pub open spec fn instance_slots_for(
    slots: Seq<MaterialInstanceSlotModel>,
    refs: GltfTextureRefs,
) -> bool {
    &&& slots.len() == 6
    &&& slots[0] == (MaterialInstanceSlotModel {
        slot_name: SlotName::PerMaterialData,
        image: None,
        has_buffer_data: true,
    })
    &&& slots[1] == (MaterialInstanceSlotModel {
        slot_name: SlotName::BaseColorTexture,
        image: Some(slot_image_of(refs.base_color_texture)),
        has_buffer_data: false,
    })
    &&& slots[2] == (MaterialInstanceSlotModel {
        slot_name: SlotName::MetallicRoughnessTexture,
        image: Some(slot_image_of(refs.metallic_roughness_texture)),
        has_buffer_data: false,
    })
    &&& slots[3] == (MaterialInstanceSlotModel {
        slot_name: SlotName::NormalTexture,
        image: Some(slot_image_of(refs.normal_texture)),
        has_buffer_data: false,
    })
    &&& slots[4] == (MaterialInstanceSlotModel {
        slot_name: SlotName::OcclusionTexture,
        image: Some(slot_image_of(refs.occlusion_texture)),
        has_buffer_data: false,
    })
    &&& slots[5] == (MaterialInstanceSlotModel {
        slot_name: SlotName::EmissiveTexture,
        image: Some(slot_image_of(refs.emissive_texture)),
        has_buffer_data: false,
    })
}

/// The six slot assignments of the material instance built for `asset`: the
/// parameter buffer first, then the five texture slots in a fixed order,
/// each bound to its image or to the null fallback.
pub fn material_instance_slots(asset: &GltfMaterialAssetModel) -> (r: Vec<
    MaterialInstanceSlotModel,
>)
    ensures
        r@.len() == 6,
        r@[0] == (MaterialInstanceSlotModel {
            slot_name: SlotName::PerMaterialData,
            image: None,
            has_buffer_data: true,
        }),
        r@[1] == (MaterialInstanceSlotModel {
            slot_name: SlotName::BaseColorTexture,
            image: Some(slot_image_of(asset.base_color_texture)),
            has_buffer_data: false,
        }),
        r@[2] == (MaterialInstanceSlotModel {
            slot_name: SlotName::MetallicRoughnessTexture,
            image: Some(slot_image_of(asset.metallic_roughness_texture)),
            has_buffer_data: false,
        }),
        r@[3] == (MaterialInstanceSlotModel {
            slot_name: SlotName::NormalTexture,
            image: Some(slot_image_of(asset.normal_texture)),
            has_buffer_data: false,
        }),
        r@[4] == (MaterialInstanceSlotModel {
            slot_name: SlotName::OcclusionTexture,
            image: Some(slot_image_of(asset.occlusion_texture)),
            has_buffer_data: false,
        }),
        r@[5] == (MaterialInstanceSlotModel {
            slot_name: SlotName::EmissiveTexture,
            image: Some(slot_image_of(asset.emissive_texture)),
            has_buffer_data: false,
        }),
{
    let mut slots: Vec<MaterialInstanceSlotModel> = Vec::new();
    slots.push(
        MaterialInstanceSlotModel {
            slot_name: SlotName::PerMaterialData,
            image: None,
            has_buffer_data: true,
        },
    );
    push_image_slot_assignment(SlotName::BaseColorTexture, &mut slots, &asset.base_color_texture);
    push_image_slot_assignment(
        SlotName::MetallicRoughnessTexture,
        &mut slots,
        &asset.metallic_roughness_texture,
    );
    push_image_slot_assignment(SlotName::NormalTexture, &mut slots, &asset.normal_texture);
    push_image_slot_assignment(SlotName::OcclusionTexture, &mut slots, &asset.occlusion_texture);
    push_image_slot_assignment(SlotName::EmissiveTexture, &mut slots, &asset.emissive_texture);
    slots
}

/// Append one texture slot, bound to its image or to the null fallback.
fn push_image_slot_assignment(
    slot_name: SlotName,
    slot_assignments: &mut Vec<MaterialInstanceSlotModel>,
    image: &Option<usize>,
)
    ensures
        final (slot_assignments)@ == old(slot_assignments)@.push(
            MaterialInstanceSlotModel {
                slot_name,
                image: Some(slot_image_of(*image)),
                has_buffer_data: false,
            },
        ),
{
    let bound = match image {
        Some(i) => SlotImage::Image(*i),
        None => SlotImage::NullImage,
    };
    slot_assignments.push(
        MaterialInstanceSlotModel { slot_name, image: Some(bound), has_buffer_data: false },
    );
}

} // verus!
