//! Extraction of the images a document carries.
//!
//! Each decoded image is converted to the standard four-bytes-per-texel RGBA
//! layout, paired with the color space the materials assigned to it (linear
//! where none did), and given its identity: its name, or its index where it
//! is unnamed. The pixel conversions themselves are done by the image crate;
//! what each conversion produces is stated byte for byte.

use vstd::prelude::*;

use image::buffer::ConvertBuffer;

use crate::color_space::color_space_assignment;
use crate::gltf_model::ColorSpace;
use crate::gltf_model::GltfImageModel;
use crate::gltf_model::GltfMaterialModel;
use crate::gltf_model::ImageFormat;
use crate::object_id::GltfObjectId;
use crate::object_id::clone_bytes;
use crate::object_id::names_object;
use crate::object_id::object_id_for;

verus! {

/// Byte `j` of the RGBA conversion of `pixels` held in `format`: gray
/// broadcasts to the three color channels, a missing alpha channel becomes
/// fully opaque.
pub open spec fn rgba_byte(format: ImageFormat, pixels: Seq<u8>, j: int) -> u8 {
    let p = j / 4;
    let c = j % 4;
    match format {
        ImageFormat::R8 => if c == 3 {
            255
        } else {
            pixels[p]
        },
        ImageFormat::R8G8 => if c == 3 {
            pixels[2 * p + 1]
        } else {
            pixels[2 * p]
        },
        ImageFormat::R8G8B8 => if c == 3 {
            255
        } else {
            pixels[3 * p + c]
        },
        ImageFormat::R8G8B8A8 => pixels[j],
        _ => 0,
    }
}

/// The RGBA conversion of `texel_count` texels of `pixels` held in `format`.
pub open spec fn rgba_of(format: ImageFormat, pixels: Seq<u8>, texel_count: int) -> Seq<u8> {
    Seq::new((4 * texel_count) as nat, |j: int| rgba_byte(format, pixels, j))
}

/// Relies on image::ImageBuffer::from_vec and ConvertBuffer for Luma: a gray
/// texel L becomes (L, L, L, 255), texel order kept.
#[verifier::external_body]
fn luma_to_rgba(width: u32, height: u32, pixels: Vec<u8>) -> (r: Vec<u8>)
    requires
        pixels@.len() == width * height,
        4 * (width * height) <= usize::MAX,
    ensures
        r@.len() == 4 * (width * height),
        forall|j: int|
            0 <= j < r@.len() ==> r@[j] == (if j % 4 == 3 {
                255
            } else {
                pixels@[j / 4]
            }),
{
    let buffer =
        image::ImageBuffer::<image::Luma<u8>, Vec<u8>>::from_vec(width, height, pixels).unwrap();
    let converted: image::RgbaImage = buffer.convert();
    converted.into_raw()
}

/// Relies on image::ImageBuffer::from_vec and ConvertBuffer for LumaA: a
/// gray-with-alpha texel (L, A) becomes (L, L, L, A), texel order kept.
#[verifier::external_body]
fn luma_alpha_to_rgba(width: u32, height: u32, pixels: Vec<u8>) -> (r: Vec<u8>)
    requires
        pixels@.len() == 2 * (width * height),
        4 * (width * height) <= usize::MAX,
    ensures
        r@.len() == 4 * (width * height),
        forall|j: int|
            0 <= j < r@.len() ==> r@[j] == (if j % 4 == 3 {
                pixels@[2 * (j / 4) + 1]
            } else {
                pixels@[2 * (j / 4)]
            }),
{
    let buffer =
        image::ImageBuffer::<image::LumaA<u8>, Vec<u8>>::from_vec(width, height, pixels).unwrap();
    let converted: image::RgbaImage = buffer.convert();
    converted.into_raw()
}

/// Relies on image::ImageBuffer::from_vec and ConvertBuffer for Rgb: a texel
/// (R, G, B) becomes (R, G, B, 255), texel order kept.
#[verifier::external_body]
fn rgb_to_rgba(width: u32, height: u32, pixels: Vec<u8>) -> (r: Vec<u8>)
    requires
        pixels@.len() == 3 * (width * height),
        4 * (width * height) <= usize::MAX,
    ensures
        r@.len() == 4 * (width * height),
        forall|j: int|
            0 <= j < r@.len() ==> r@[j] == (if j % 4 == 3 {
                255
            } else {
                pixels@[3 * (j / 4) + (j % 4)]
            }),
{
    let buffer =
        image::ImageBuffer::<image::Rgb<u8>, Vec<u8>>::from_vec(width, height, pixels).unwrap();
    let converted: image::RgbaImage = buffer.convert();
    converted.into_raw()
}

/// An image ready to be registered as an asset: RGBA data and the color
/// space it is sampled in.
pub struct ImageAssetData {
    pub data: Vec<u8>,
    pub width: u32,
    pub height: u32,
    pub color_space: ColorSpace,
}

/// One image together with the identity its UUID is assigned under.
pub struct ImageToImport {
    pub id: GltfObjectId,
    pub asset: ImageAssetData,
}

/// Whether `d` is the asset data of image `i` of the document: the RGBA
/// conversion of its pixels, under the color space the materials assigned
/// (linear where none did).
pub open spec fn image_payload_ok(
    d: ImageAssetData,
    img: GltfImageModel,
    i: usize,
    materials: Seq<GltfMaterialModel>,
) -> bool {
    &&& d.width == img.width
    &&& d.height == img.height
    &&& d.color_space == (match color_space_assignment(materials, i) {
        Some(c) => c,
        None => ColorSpace::Linear,
    })
    &&& d.data@ == rgba_of(img.format, img.pixels@, img.width * img.height)
}

/// Convert every image of the document to RGBA, assign it the color space
/// the materials chose (linear where none did), and pair it with its
/// identity. Images come out in document order, one per input.
pub fn extract_images_to_import(
    images: &Vec<GltfImageModel>,
    materials: &Vec<GltfMaterialModel>,
    image_color_space_assignments: &Vec<Option<ColorSpace>>,
) -> (r: Vec<ImageToImport>)
    requires
        forall|i: int| 0 <= i < images@.len() ==> (#[trigger] images@[i]).wf(),
        forall|i: int|
            0 <= i < images@.len() ==> (#[trigger] images@[i]).format.spec_convertible(),
        image_color_space_assignments@.len() == images@.len(),
        forall|i: int|
            0 <= i < images@.len() ==> image_color_space_assignments@[i]
                == color_space_assignment(materials@, i as usize),
    ensures
        r@.len() == images@.len(),
        forall|i: int|
            0 <= i < images@.len() ==> names_object(
                (#[trigger] r@[i]).id,
                images@[i].name,
                i as usize,
            ),
        forall|i: int|
            0 <= i < images@.len() ==> image_payload_ok(
                (#[trigger] r@[i]).asset,
                images@[i],
                i as usize,
                materials@,
            ),
{
    let mut r: Vec<ImageToImport> = Vec::new();
    let mut i: usize = 0;
    while i < images.len()
        invariant
            i <= images@.len(),
            r@.len() == i,
            forall|k: int| 0 <= k < images@.len() ==> (#[trigger] images@[k]).wf(),
            forall|k: int|
                0 <= k < images@.len() ==> (#[trigger] images@[k]).format.spec_convertible(),
            image_color_space_assignments@.len() == images@.len(),
            forall|k: int|
                0 <= k < images@.len() ==> image_color_space_assignments@[k]
                    == color_space_assignment(materials@, k as usize),
            forall|k: int|
                0 <= k < i ==> names_object((#[trigger] r@[k]).id, images@[k].name, k as usize),
            forall|k: int|
                0 <= k < i ==> (#[trigger] r@[k]).asset.width == images@[k].width
                    && r@[k].asset.height == images@[k].height,
            forall|k: int|
                0 <= k < i ==> (#[trigger] r@[k]).asset.color_space == (
                match color_space_assignment(materials@, k as usize) {
                    Some(c) => c,
                    None => ColorSpace::Linear,
                }),
            forall|k: int|
                0 <= k < i ==> (#[trigger] r@[k]).asset.data@ == rgba_of(
                    images@[k].format,
                    images@[k].pixels@,
                    images@[k].width * images@[k].height,
                ),
        decreases images@.len() - i,
    {
        let image = &images[i];
        let ghost texels: int = image.width * image.height;
        let pixels = clone_bytes(&image.pixels);
        let data: Vec<u8> = match image.format {
            ImageFormat::R8 => luma_to_rgba(image.width, image.height, pixels),
            ImageFormat::R8G8 => luma_alpha_to_rgba(image.width, image.height, pixels),
            ImageFormat::R8G8B8 => rgb_to_rgba(image.width, image.height, pixels),
            _ => pixels,
        };
        proof {
            assert(data@ =~= rgba_of(image.format, image.pixels@, texels));
        }
        let color_space = match image_color_space_assignments[i] {
            Some(c) => c,
            None => ColorSpace::Linear,
        };
        let id = object_id_for(&image.name, i);
        let asset = ImageAssetData { data, width: image.width, height: image.height, color_space };
        r.push(ImageToImport { id, asset });
        i = i + 1;
    }
    r
}

} // verus!
