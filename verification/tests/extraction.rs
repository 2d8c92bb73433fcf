use engine::color_space::build_image_color_space_assignments_from_materials;
use engine::gltf_model::ColorSpace;
use engine::gltf_model::GltfImageModel;
use engine::gltf_model::GltfMaterialModel;
use engine::gltf_model::GltfMeshModel;
use engine::gltf_model::GltfPrimitiveModel;
use engine::gltf_model::GltfTextureRefs;
use engine::gltf_model::ImageFormat;
use engine::gltf_model::MESH_VERTEX_SIZE_IN_BYTES;
use engine::gltf_model::VertexStream;
use engine::image_import::extract_images_to_import;
use engine::importer_state::GltfImporterStateUnstable;
use engine::material_import::SlotImage;
use engine::material_import::SlotName;
use engine::material_import::extract_materials_to_import;
use engine::material_import::material_instance_slots;
use engine::mesh_import::convert_to_u16_indices;
use engine::mesh_import::extract_meshes_to_import;
use engine::object_id::GltfObjectId;

fn no_textures() -> GltfTextureRefs {
    GltfTextureRefs {
        base_color_texture: None,
        metallic_roughness_texture: None,
        normal_texture: None,
        occlusion_texture: None,
        emissive_texture: None,
    }
}

#[test]
fn color_spaces_follow_slot_classes() {
    let materials = vec![GltfMaterialModel {
        name: None,
        textures: GltfTextureRefs {
            base_color_texture: Some(0),
            metallic_roughness_texture: Some(1),
            normal_texture: Some(2),
            occlusion_texture: Some(3),
            emissive_texture: Some(4),
        },
    }];
    let spaces = build_image_color_space_assignments_from_materials(&materials, 6);
    assert_eq!(spaces[0], Some(ColorSpace::Srgb));
    assert_eq!(spaces[1], Some(ColorSpace::Linear));
    assert_eq!(spaces[2], Some(ColorSpace::Linear));
    assert_eq!(spaces[3], Some(ColorSpace::Srgb));
    assert_eq!(spaces[4], Some(ColorSpace::Srgb));
    assert_eq!(spaces[5], None);
}

#[test]
fn later_material_reference_wins() {
    let mut first = no_textures();
    first.base_color_texture = Some(0);
    let mut second = no_textures();
    second.metallic_roughness_texture = Some(0);
    let materials = vec![
        GltfMaterialModel { name: None, textures: first },
        GltfMaterialModel { name: None, textures: second },
    ];
    let spaces = build_image_color_space_assignments_from_materials(&materials, 1);
    assert_eq!(spaces[0], Some(ColorSpace::Linear));
}

#[test]
fn gray_image_becomes_rgba() {
    let images = vec![GltfImageModel {
        name: Some(b"noise".to_vec()),
        width: 2,
        height: 1,
        format: ImageFormat::R8,
        pixels: vec![7, 200],
    }];
    let materials: Vec<GltfMaterialModel> = Vec::new();
    let spaces = build_image_color_space_assignments_from_materials(&materials, 1);
    let imported = extract_images_to_import(&images, &materials, &spaces);
    assert_eq!(imported.len(), 1);
    assert_eq!(imported[0].id, GltfObjectId::Name(b"noise".to_vec()));
    assert_eq!(imported[0].asset.width, 2);
    assert_eq!(imported[0].asset.height, 1);
    assert_eq!(imported[0].asset.color_space, ColorSpace::Linear);
    assert_eq!(imported[0].asset.data, vec![7, 7, 7, 255, 200, 200, 200, 255]);
}

#[test]
fn gray_alpha_and_rgb_images_become_rgba() {
    let images = vec![
        GltfImageModel {
            name: None,
            width: 1,
            height: 1,
            format: ImageFormat::R8G8,
            pixels: vec![10, 128],
        },
        GltfImageModel {
            name: None,
            width: 1,
            height: 1,
            format: ImageFormat::R8G8B8,
            pixels: vec![1, 2, 3],
        },
        GltfImageModel {
            name: None,
            width: 1,
            height: 1,
            format: ImageFormat::R8G8B8A8,
            pixels: vec![4, 5, 6, 7],
        },
    ];
    let materials: Vec<GltfMaterialModel> = Vec::new();
    let spaces = build_image_color_space_assignments_from_materials(&materials, 3);
    let imported = extract_images_to_import(&images, &materials, &spaces);
    assert_eq!(imported[0].asset.data, vec![10, 10, 10, 128]);
    assert_eq!(imported[0].id, GltfObjectId::Index(0));
    assert_eq!(imported[1].asset.data, vec![1, 2, 3, 255]);
    assert_eq!(imported[2].asset.data, vec![4, 5, 6, 7]);
}

#[test]
fn materials_record_their_texture_slots() {
    let materials = vec![GltfMaterialModel {
        name: Some(b"gold".to_vec()),
        textures: GltfTextureRefs {
            base_color_texture: Some(2),
            metallic_roughness_texture: None,
            normal_texture: Some(0),
            occlusion_texture: None,
            emissive_texture: None,
        },
    }];
    let imported = extract_materials_to_import(&materials);
    assert_eq!(imported.len(), 1);
    assert_eq!(imported[0].id, GltfObjectId::Name(b"gold".to_vec()));
    assert_eq!(imported[0].asset.base_color_texture, Some(2));
    assert_eq!(imported[0].asset.normal_texture, Some(0));
    assert_eq!(imported[0].asset.metallic_roughness_texture, None);
    assert!(imported[0].asset.has_base_color_texture);
    assert!(imported[0].asset.has_normal_texture);
    assert!(!imported[0].asset.has_metallic_roughness_texture);
    assert!(!imported[0].asset.has_occlusion_texture);
    assert!(!imported[0].asset.has_emissive_texture);
}

#[test]
fn material_instance_slots_fall_back_to_null_image() {
    let materials = vec![GltfMaterialModel {
        name: None,
        textures: GltfTextureRefs {
            base_color_texture: Some(1),
            metallic_roughness_texture: None,
            normal_texture: None,
            occlusion_texture: None,
            emissive_texture: None,
        },
    }];
    let imported = extract_materials_to_import(&materials);
    let slots = material_instance_slots(&imported[0].asset);
    assert_eq!(slots.len(), 6);
    assert_eq!(slots[0].slot_name, SlotName::PerMaterialData);
    assert!(slots[0].has_buffer_data);
    assert_eq!(slots[0].image, None);
    assert_eq!(slots[1].slot_name, SlotName::BaseColorTexture);
    assert_eq!(slots[1].image, Some(SlotImage::Image(1)));
    assert_eq!(slots[2].image, Some(SlotImage::NullImage));
    assert_eq!(slots[3].image, Some(SlotImage::NullImage));
    assert_eq!(slots[4].image, Some(SlotImage::NullImage));
    assert_eq!(slots[5].image, Some(SlotImage::NullImage));
}

#[test]
fn u16_conversion_checks_every_index() {
    assert_eq!(convert_to_u16_indices(&vec![0, 1, 65535]), Some(vec![0u16, 1, 65535]));
    assert_eq!(convert_to_u16_indices(&vec![0, 65536]), None);
    assert_eq!(convert_to_u16_indices(&Vec::new()), Some(Vec::new()));
}

fn vertex_stream(count: usize) -> VertexStream {
    VertexStream { vertex_count: count, bytes: vec![0u8; count * MESH_VERTEX_SIZE_IN_BYTES] }
}

#[test]
fn mesh_parts_tile_the_shared_buffers() {
    let mesh = GltfMeshModel {
        name: Some(b"hull".to_vec()),
        primitives: vec![
            GltfPrimitiveModel {
                indices: Some(vec![0, 1, 2]),
                vertices: Some(vertex_stream(3)),
                material: Some(0),
            },
            // no tangents or texture coordinates: skipped
            GltfPrimitiveModel { indices: Some(vec![0]), vertices: None, material: Some(0) },
            GltfPrimitiveModel {
                indices: Some(vec![2, 1]),
                vertices: Some(vertex_stream(2)),
                material: Some(1),
            },
        ],
    };
    let mut state = GltfImporterStateUnstable::new();
    let (meshes, buffers) = extract_meshes_to_import(&mut state, &vec![mesh], 2).unwrap();
    assert_eq!(meshes.len(), 1);
    assert_eq!(buffers.len(), 2);
    assert_eq!(meshes[0].id, GltfObjectId::Name(b"hull".to_vec()));
    let parts = &meshes[0].asset.mesh_parts;
    assert_eq!(parts.len(), 2);
    assert_eq!(parts[0].material, 0);
    assert_eq!(parts[0].vertex_buffer_offset_in_bytes, 0);
    assert_eq!(parts[0].vertex_buffer_size_in_bytes, 144);
    assert_eq!(parts[0].index_buffer_offset_in_bytes, 0);
    assert_eq!(parts[0].index_buffer_size_in_bytes, 6);
    assert_eq!(parts[1].material, 1);
    assert_eq!(parts[1].vertex_buffer_offset_in_bytes, 144);
    assert_eq!(parts[1].vertex_buffer_size_in_bytes, 96);
    assert_eq!(parts[1].index_buffer_offset_in_bytes, 6);
    assert_eq!(parts[1].index_buffer_size_in_bytes, 4);
    assert_eq!(meshes[0].asset.vertex_buffer, 0);
    assert_eq!(meshes[0].asset.index_buffer, 1);
    assert_eq!(buffers[0].id, GltfObjectId::Index(0));
    assert_eq!(buffers[0].asset.data.len(), 240);
    assert_eq!(buffers[1].id, GltfObjectId::Index(1));
    // little-endian 16-bit indices: 0, 1, 2, then 2, 1
    assert_eq!(buffers[1].asset.data, vec![0, 0, 1, 0, 2, 0, 2, 0, 1, 0]);
    // both shared buffers were registered in the persisted table
    assert!(state.buffer_asset_uuids.lookup(&GltfObjectId::Index(0)).is_some());
    assert!(state.buffer_asset_uuids.lookup(&GltfObjectId::Index(1)).is_some());
}

#[test]
fn oversized_indices_skip_the_primitive() {
    let mesh = GltfMeshModel {
        name: None,
        primitives: vec![GltfPrimitiveModel {
            indices: Some(vec![70000]),
            vertices: Some(vertex_stream(1)),
            material: None,
        }],
    };
    let mut state = GltfImporterStateUnstable::new();
    // the primitive is skipped before its missing material can matter
    let (meshes, buffers) = extract_meshes_to_import(&mut state, &vec![mesh], 0).unwrap();
    assert_eq!(meshes[0].asset.mesh_parts.len(), 0);
    assert_eq!(buffers[0].asset.data.len(), 0);
    assert_eq!(buffers[1].asset.data.len(), 0);
}

#[test]
fn accepted_primitive_without_material_fails_the_import() {
    let mesh = GltfMeshModel {
        name: None,
        primitives: vec![GltfPrimitiveModel {
            indices: Some(vec![0, 1, 2]),
            vertices: Some(vertex_stream(3)),
            material: None,
        }],
    };
    let mut state = GltfImporterStateUnstable::new();
    let result = extract_meshes_to_import(&mut state, &vec![mesh], 0);
    let error = result.err().unwrap();
    assert_eq!(error.message(), "A mesh primitive did not have a material");
}
