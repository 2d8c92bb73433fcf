use engine::asset_uuid::AssetUuid;
use engine::gltf_model::GltfDocumentModel;
use engine::gltf_model::GltfImageModel;
use engine::gltf_model::GltfMaterialModel;
use engine::gltf_model::GltfMeshModel;
use engine::gltf_model::GltfPrimitiveModel;
use engine::gltf_model::GltfSceneModel;
use engine::gltf_model::GltfTextureRefs;
use engine::gltf_model::ImageFormat;
use engine::gltf_model::MESH_VERTEX_SIZE_IN_BYTES;
use engine::gltf_model::VertexStream;
use engine::importer::GltfImporter;
use engine::importer::ImportedAssetData;
use engine::importer::TagKey;
use engine::importer_state::GltfImporterStateStable;

fn small_document() -> GltfDocumentModel {
    GltfDocumentModel {
        images: vec![GltfImageModel {
            name: Some(b"albedo".to_vec()),
            width: 1,
            height: 1,
            format: ImageFormat::R8,
            pixels: vec![40],
        }],
        materials: vec![GltfMaterialModel {
            name: Some(b"paint".to_vec()),
            textures: GltfTextureRefs {
                base_color_texture: Some(0),
                metallic_roughness_texture: None,
                normal_texture: None,
                occlusion_texture: None,
                emissive_texture: None,
            },
        }],
        meshes: vec![GltfMeshModel {
            name: Some(b"crate_mesh".to_vec()),
            primitives: vec![GltfPrimitiveModel {
                indices: Some(vec![0, 1, 2]),
                vertices: Some(VertexStream {
                    vertex_count: 3,
                    bytes: vec![9u8; 3 * MESH_VERTEX_SIZE_IN_BYTES],
                }),
                material: Some(0),
            }],
        }],
        scenes: vec![GltfSceneModel { name: Some(b"yard".to_vec()), new_prefab_id: AssetUuid(77) }],
    }
}

#[test]
fn import_emits_assets_in_segment_order() {
    let importer = GltfImporter;
    let mut state = GltfImporterStateStable::new();
    let value = importer.import(&small_document(), &mut state).unwrap();
    // 1 image + 1 material + 1 material instance + 2 buffers + 1 mesh + 1 prefab
    assert_eq!(value.assets.len(), 7);
    assert!(matches!(value.assets[0].asset_data, ImportedAssetData::Image(_)));
    assert!(matches!(value.assets[1].asset_data, ImportedAssetData::Material(_)));
    assert!(matches!(value.assets[2].asset_data, ImportedAssetData::MaterialInstance(_)));
    assert!(matches!(value.assets[3].asset_data, ImportedAssetData::Buffer(_)));
    assert!(matches!(value.assets[4].asset_data, ImportedAssetData::Buffer(_)));
    assert!(matches!(value.assets[5].asset_data, ImportedAssetData::Mesh(_)));
    assert!(matches!(value.assets[6].asset_data, ImportedAssetData::Prefab));
    // search tags carry the object names
    assert_eq!(value.assets[0].search_tags.len(), 1);
    assert_eq!(value.assets[0].search_tags[0].key, TagKey::ImageName);
    assert_eq!(value.assets[0].search_tags[0].value, b"albedo".to_vec());
    assert_eq!(value.assets[1].search_tags[0].key, TagKey::MaterialName);
    assert_eq!(value.assets[2].search_tags[0].key, TagKey::MaterialName);
    assert_eq!(value.assets[3].search_tags.len(), 0);
    assert_eq!(value.assets[5].search_tags[0].key, TagKey::MeshName);
    assert_eq!(value.assets[6].search_tags[0].key, TagKey::SceneName);
    // the scene kept its generated prefab identity on first import
    assert_eq!(value.assets[6].id, AssetUuid(77));
    // the persisted tables are sorted and hold every identity once
    assert_eq!(state.image_asset_uuids.len(), 1);
    assert_eq!(state.material_asset_uuids.len(), 1);
    assert_eq!(state.material_instance_asset_uuids.len(), 1);
    assert_eq!(state.buffer_asset_uuids.len(), 2);
    assert_eq!(state.mesh_asset_uuids.len(), 1);
    assert_eq!(state.prefab_asset_uuids.len(), 1);
}

#[test]
fn reimport_reuses_every_uuid() {
    let importer = GltfImporter;
    let mut state = GltfImporterStateStable::new();
    let first = importer.import(&small_document(), &mut state).unwrap();
    // a re-import of the unchanged document arrives with a different
    // freshly generated prefab identity
    let mut document = small_document();
    document.scenes[0].new_prefab_id = AssetUuid(5000);
    let second = importer.import(&document, &mut state).unwrap();
    assert_eq!(first.assets.len(), second.assets.len());
    for (a, b) in first.assets.iter().zip(second.assets.iter()) {
        assert_eq!(a.id, b.id);
    }
    // state did not grow: no identity was assigned twice
    assert_eq!(state.image_asset_uuids.len(), 1);
    assert_eq!(state.buffer_asset_uuids.len(), 2);
    assert_eq!(state.prefab_asset_uuids.len(), 1);
}

#[test]
fn failed_import_leaves_state_untouched() {
    let importer = GltfImporter;
    let mut state = GltfImporterStateStable::new();
    importer.import(&small_document(), &mut state).unwrap();
    let buffers_before = state.buffer_asset_uuids.clone();
    let mut document = small_document();
    document.meshes[0].primitives[0].material = None;
    let result = importer.import(&document, &mut state);
    let error = result.err().unwrap();
    assert_eq!(error.message(), "A mesh primitive did not have a material");
    assert_eq!(state.buffer_asset_uuids, buffers_before);
}

#[test]
fn importer_version_is_stable() {
    assert_eq!(GltfImporter::version_static(), 27);
    assert_eq!(GltfImporter.version(), 27);
}
