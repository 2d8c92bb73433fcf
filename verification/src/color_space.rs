//! Choice of color space per image.
//!
//! A texture is sampled as sRGB or as linear data depending on which material
//! slot references it: color-carrying slots (base color, occlusion, emissive)
//! mark their image sRGB, data-carrying slots (metallic-roughness, normal)
//! mark it linear. Materials are walked in document order and each slot
//! assignment overwrites earlier ones, so the last reference wins. An image
//! no material references defaults to linear where it is used.

use vstd::prelude::*;

use crate::gltf_model::ColorSpace;
use crate::gltf_model::GltfMaterialModel;

verus! {

/// The color space one material assigns to image `img`: of its slots that
/// reference the image, the one assigned last wins (slots are assigned in
/// the order base color, metallic-roughness, normal, occlusion, emissive).
pub open spec fn material_slot_assignment(m: GltfMaterialModel, img: usize) -> Option<ColorSpace> {
    let t = m.textures;
    if t.emissive_texture == Some(img) {
        Some(ColorSpace::Srgb)
    } else if t.occlusion_texture == Some(img) {
        Some(ColorSpace::Srgb)
    } else if t.normal_texture == Some(img) {
        Some(ColorSpace::Linear)
    } else if t.metallic_roughness_texture == Some(img) {
        Some(ColorSpace::Linear)
    } else if t.base_color_texture == Some(img) {
        Some(ColorSpace::Srgb)
    } else {
        None
    }
}

/// The color space the whole material list assigns to image `img`: the
/// assignment of the last material that references it.
pub open spec fn color_space_assignment(
    ms: Seq<GltfMaterialModel>,
    img: usize,
) -> Option<ColorSpace>
    decreases ms.len(),
{
    if ms.len() == 0 {
        None
    } else {
        match material_slot_assignment(ms.last(), img) {
            Some(c) => Some(c),
            None => color_space_assignment(ms.drop_last(), img),
        }
    }
}

/// Walk all materials and record, per image, the color space its last
/// reference assigns: `None` where no material references the image.
pub fn build_image_color_space_assignments_from_materials(
    materials: &Vec<GltfMaterialModel>,
    image_count: usize,
) -> (r: Vec<Option<ColorSpace>>)
    requires
        forall|i: int|
            0 <= i < materials@.len() ==> (#[trigger] materials@[i]).textures.wf(
                image_count as int,
            ),
    ensures
        r@.len() == image_count,
        forall|img: int|
            0 <= img < image_count ==> r@[img] == color_space_assignment(
                materials@,
                img as usize,
            ),
{
    let mut r: Vec<Option<ColorSpace>> = Vec::new();
    while r.len() < image_count
        invariant
            r@.len() <= image_count,
            forall|img: int| 0 <= img < r@.len() ==> r@[img] == None::<ColorSpace>,
        decreases image_count - r@.len(),
    {
        r.push(None);
    }
    let mut k: usize = 0;
    proof {
        assert(materials@.take(0).len() == 0);
    }
    while k < materials.len()
        invariant
            k <= materials@.len(),
            r@.len() == image_count,
            forall|i: int|
                0 <= i < materials@.len() ==> (#[trigger] materials@[i]).textures.wf(
                    image_count as int,
                ),
            forall|img: int|
                0 <= img < image_count ==> r@[img] == color_space_assignment(
                    materials@.take(k as int),
                    img as usize,
                ),
        decreases materials@.len() - k,
    {
        let ghost r0 = r@;
        let ghost m = materials@[k as int];
        if let Some(i) = materials[k].textures.base_color_texture {
            r.set(i, Some(ColorSpace::Srgb));
        }
        if let Some(i) = materials[k].textures.metallic_roughness_texture {
            r.set(i, Some(ColorSpace::Linear));
        }
        if let Some(i) = materials[k].textures.normal_texture {
            r.set(i, Some(ColorSpace::Linear));
        }
        if let Some(i) = materials[k].textures.occlusion_texture {
            r.set(i, Some(ColorSpace::Srgb));
        }
        if let Some(i) = materials[k].textures.emissive_texture {
            r.set(i, Some(ColorSpace::Srgb));
        }
        proof {
            assert(materials@.take(k + 1).last() == m);
            assert(materials@.take(k + 1).drop_last() =~= materials@.take(k as int));
            assert forall|img: int|
                0 <= img < image_count implies r@[img] == color_space_assignment(
                materials@.take(k + 1),
                img as usize,
            ) by {
                assert(r0[img] == color_space_assignment(materials@.take(k as int), img as usize));
                if material_slot_assignment(m, img as usize) is Some {
                    assert(r@[img] == Some(
                        material_slot_assignment(m, img as usize).unwrap(),
                    ));
                } else {
                    assert(r@[img] == r0[img]);
                }
            }
        }
        k = k + 1;
    }
    proof {
        assert(materials@.take(materials@.len() as int) =~= materials@);
    }
    r
}

} // verus!
