//! The GLTF importer: one parsed document in, the document's assets out.
//!
//! An import walks the document's images, materials, material instances,
//! buffers, meshes and scenes in a fixed order, assigns each object the UUID
//! persisted for its identity (or a fresh one, recorded for later imports),
//! and emits one asset per object, searchable by the object's name. The
//! persisted state leaves sorted by identity, so an unchanged document
//! yields identical state and identical UUIDs: asset references stay stable
//! across incremental rebuilds.

use vstd::prelude::*;

use crate::asset_uuid::AssetUuid;
use crate::color_space::build_image_color_space_assignments_from_materials;
use crate::gltf_model::GltfDocumentModel;
use crate::gltf_model::GltfImageModel;
use crate::gltf_model::GltfMaterialModel;
use crate::gltf_model::GltfMeshModel;
use crate::gltf_model::GltfSceneModel;
use crate::image_import::ImageAssetData;
use crate::image_import::ImageToImport;
use crate::image_import::extract_images_to_import;
use crate::image_import::image_payload_ok;
use crate::import_error::GltfImportError;
use crate::importer_state::GltfImporterStateStable;
use crate::importer_state::GltfImporterStateUnstable;
use crate::material_import::GltfMaterialAssetModel;
use crate::material_import::MaterialInstanceSlotModel;
use crate::material_import::MaterialToImport;
use crate::material_import::asset_matches_refs;
use crate::material_import::extract_materials_to_import;
use crate::material_import::instance_slots_for;
use crate::material_import::material_instance_slots;
use crate::mesh_import::BufferAssetData;
use crate::mesh_import::BufferToImport;
use crate::mesh_import::MeshAssetDataModel;
use crate::mesh_import::MeshToImport;
use crate::mesh_import::extract_meshes_to_import;
use crate::mesh_import::mesh_index_bytes;
use crate::mesh_import::mesh_parts_of;
use crate::mesh_import::mesh_vertex_bytes;
use crate::mesh_import::meshes_ok;
use crate::object_id::GltfObjectId;
use crate::object_id::clone_bytes;
use crate::object_id::lemma_names_object_id_eq;
use crate::object_id::names_object;
use crate::object_id::object_id_for;
use crate::object_id::object_id_spec;
use crate::prefab_import::PrefabToImport;
use crate::prefab_import::extract_prefabs_to_import;
use crate::uuid_table::UuidEntry;
use crate::uuid_table::UuidTable;
use crate::uuid_table::lemma_lookup_id_view;
use crate::uuid_table::table_extends;
use crate::uuid_table::table_lookup;

verus! {

/// A key under which an asset can be searched for.
#[derive(Clone, Copy, Debug, PartialEq, Eq, Structural)]
pub enum TagKey {
    ImageName,
    MaterialName,
    MeshName,
    SceneName,
}

/// One search tag of an imported asset.
pub struct SearchTag {
    pub key: TagKey,
    pub value: Vec<u8>,
}

/// The payload of one imported asset.
pub enum ImportedAssetData {
    Image(ImageAssetData),
    Material(GltfMaterialAssetModel),
    MaterialInstance(Vec<MaterialInstanceSlotModel>),
    Buffer(BufferAssetData),
    Mesh(MeshAssetDataModel),
    Prefab,
}

/// One asset an import produces: its UUID, its search tags and its payload.
pub struct ImportedAssetModel {
    pub id: AssetUuid,
    pub search_tags: Vec<SearchTag>,
    pub asset_data: ImportedAssetData,
}

/// Everything one import produces.
pub struct ImporterValue {
    pub assets: Vec<ImportedAssetModel>,
}

/// Whether `tags` is the tag list of an object with the given name: one tag
/// under `key` carrying the name, or none where the object is unnamed.
pub open spec fn tags_for(tags: Seq<SearchTag>, key: TagKey, name: Option<Vec<u8>>) -> bool {
    match name {
        Some(n) => tags.len() == 1 && tags[0].key == key && tags[0].value@ == n@,
        None => tags.len() == 0,
    }
}

/// The tag list of an object with the given name.
fn tags_for_name(key: TagKey, name: &Option<Vec<u8>>) -> (r: Vec<SearchTag>)
    ensures
        tags_for(r@, key, *name),
{
    let mut tags: Vec<SearchTag> = Vec::new();
    match name {
        Some(n) => {
            tags.push(SearchTag { key, value: clone_bytes(n) });
        }
        None => {}
    }
    tags
}

/// Whether an asset's UUID is the one the table assigns to identity `oid`,
/// and kept from `old_t` where that table already knew the identity.
pub open spec fn uuid_assigned(
    id: AssetUuid,
    oid: GltfObjectId,
    old_t: Seq<UuidEntry>,
    new_t: Seq<UuidEntry>,
) -> bool {
    &&& table_lookup(new_t, oid) == Some(id)
    &&& (table_lookup(old_t, oid) is Some ==> Some(id) == table_lookup(old_t, oid))
}

/// Whether `a` is the imported asset of image `i` of the document.
pub open spec fn image_asset_ok(
    a: ImportedAssetModel,
    img: GltfImageModel,
    i: usize,
    materials: Seq<GltfMaterialModel>,
    old_t: Seq<UuidEntry>,
    new_t: Seq<UuidEntry>,
) -> bool {
    &&& a.asset_data matches ImportedAssetData::Image(d) && image_payload_ok(d, img, i, materials)
    &&& uuid_assigned(a.id, object_id_spec(img.name, i), old_t, new_t)
    &&& tags_for(a.search_tags@, TagKey::ImageName, img.name)
}

/// Emit one asset per extracted image, assigning each image's UUID under
/// its identity in the image table.
fn import_image_assets(
    images: &Vec<GltfImageModel>,
    materials: &Vec<GltfMaterialModel>,
    items: Vec<ImageToImport>,
    table: &mut UuidTable,
    assets: &mut Vec<ImportedAssetModel>,
)
    requires
        old(table).wf(),
        items@.len() == images@.len(),
        forall|i: int|
            0 <= i < images@.len() ==> image_payload_ok(
                (#[trigger] items@[i]).asset,
                images@[i],
                i as usize,
                materials@,
            ),
    ensures
        final (table).wf(),
        table_extends(old(table)@, final (table)@),
        final (assets)@.len() == old(assets)@.len() + images@.len(),
        forall|m: int| 0 <= m < old(assets)@.len() ==> final (assets)@[m] == old(assets)@[m],
        forall|i: int|
            0 <= i < images@.len() ==> image_asset_ok(
                #[trigger] final (assets)@[old(assets)@.len() + i],
                images@[i],
                i as usize,
                materials@,
                old(table)@,
                final (table)@,
            ),
{
    let ghost base = old(assets)@.len() as int;
    let ghost orig_items = items@;
    let mut items = items;
    let mut i: usize = 0;
    while i < images.len()
        invariant
            i <= images@.len(),
            items@ == orig_items.skip(i as int),
            orig_items.len() == images@.len(),
            forall|m: int|
                0 <= m < images@.len() ==> image_payload_ok(
                    (#[trigger] orig_items[m]).asset,
                    images@[m],
                    m as usize,
                    materials@,
                ),
            table.wf(),
            table_extends(old(table)@, table@),
            base == old(assets)@.len(),
            assets@.len() == base + i,
            forall|m: int| 0 <= m < base ==> assets@[m] == old(assets)@[m],
            forall|m: int|
                0 <= m < i ==> image_asset_ok(
                    #[trigger] assets@[base + m],
                    images@[m],
                    m as usize,
                    materials@,
                    old(table)@,
                    table@,
                ),
        decreases images@.len() - i,
    {
        let item = items.remove(0);
        proof {
            assert(orig_items.skip(i as int)[0] == orig_items[i as int]);
            assert(orig_items.skip(i as int).remove(0) =~= orig_items.skip(i + 1));
        }
        let image = &images[i];
        let search_tags = tags_for_name(TagKey::ImageName, &image.name);
        let id = object_id_for(&image.name, i);
        let ghost oid = object_id_spec(image.name, i);
        let ghost t0 = table@;
        proof {
            lemma_names_object_id_eq(id, image.name, i);
            lemma_lookup_id_view(t0, id, oid);
            lemma_lookup_id_view(old(table)@, id, oid);
        }
        let ghost a0 = assets@;
        let uuid = table.uuid_for_object(id);
        proof {
            lemma_lookup_id_view(table@, id, oid);
            if table_lookup(old(table)@, oid) is Some {
                assert(table_lookup(t0, oid) == table_lookup(old(table)@, oid));
                assert(Some(uuid) == table_lookup(old(table)@, oid));
            }
        }
        assets.push(
            ImportedAssetModel {
                id: uuid,
                search_tags,
                asset_data: ImportedAssetData::Image(item.asset),
            },
        );
        proof {
            assert forall|m: int|
                0 <= m < i + 1 implies image_asset_ok(
                #[trigger] assets@[base + m],
                images@[m],
                m as usize,
                materials@,
                old(table)@,
                table@,
            ) by {
                if m < i {
                    assert(assets@[base + m] == a0[base + m]);
                    assert(image_asset_ok(
                        a0[base + m],
                        images@[m],
                        m as usize,
                        materials@,
                        old(table)@,
                        t0,
                    ));
                    assert(table_lookup(t0, object_id_spec(images@[m].name, m as usize)) == Some(
                        a0[base + m].id,
                    ));
                } else {
                    assert(assets@[base + m].id == uuid);
                    assert(table_lookup(table@, oid) == Some(uuid));
                }
            }
        }
        i = i + 1;
    }
}

/// Whether `a` is the imported asset of material `i` of the document.
pub open spec fn material_asset_ok(
    a: ImportedAssetModel,
    m: GltfMaterialModel,
    i: usize,
    old_t: Seq<UuidEntry>,
    new_t: Seq<UuidEntry>,
) -> bool {
    &&& a.asset_data matches ImportedAssetData::Material(asset) && asset_matches_refs(
        asset,
        m.textures,
    )
    &&& uuid_assigned(a.id, object_id_spec(m.name, i), old_t, new_t)
    &&& tags_for(a.search_tags@, TagKey::MaterialName, m.name)
}

/// Emit one asset per extracted material, assigning each material's UUID
/// under its identity in the material table.
fn import_material_assets(
    materials: &Vec<GltfMaterialModel>,
    items: &Vec<MaterialToImport>,
    table: &mut UuidTable,
    assets: &mut Vec<ImportedAssetModel>,
)
    requires
        old(table).wf(),
        items@.len() == materials@.len(),
        forall|i: int|
            0 <= i < materials@.len() ==> asset_matches_refs(
                (#[trigger] items@[i]).asset,
                materials@[i].textures,
            ),
    ensures
        final (table).wf(),
        table_extends(old(table)@, final (table)@),
        final (assets)@.len() == old(assets)@.len() + materials@.len(),
        forall|m: int| 0 <= m < old(assets)@.len() ==> final (assets)@[m] == old(assets)@[m],
        forall|i: int|
            0 <= i < materials@.len() ==> material_asset_ok(
                #[trigger] final (assets)@[old(assets)@.len() + i],
                materials@[i],
                i as usize,
                old(table)@,
                final (table)@,
            ),
{
    let ghost base = old(assets)@.len() as int;
    let mut i: usize = 0;
    while i < materials.len()
        invariant
            i <= materials@.len(),
            items@.len() == materials@.len(),
            forall|m: int|
                0 <= m < materials@.len() ==> asset_matches_refs(
                    (#[trigger] items@[m]).asset,
                    materials@[m].textures,
                ),
            table.wf(),
            table_extends(old(table)@, table@),
            base == old(assets)@.len(),
            assets@.len() == base + i,
            forall|m: int| 0 <= m < base ==> assets@[m] == old(assets)@[m],
            forall|m: int|
                0 <= m < i ==> material_asset_ok(
                    #[trigger] assets@[base + m],
                    materials@[m],
                    m as usize,
                    old(table)@,
                    table@,
                ),
        decreases materials@.len() - i,
    {
        let material = &materials[i];
        let search_tags = tags_for_name(TagKey::MaterialName, &material.name);
        let id = object_id_for(&material.name, i);
        let ghost oid = object_id_spec(material.name, i);
        let ghost t0 = table@;
        proof {
            lemma_names_object_id_eq(id, material.name, i);
            lemma_lookup_id_view(t0, id, oid);
            lemma_lookup_id_view(old(table)@, id, oid);
        }
        let ghost a0 = assets@;
        let uuid = table.uuid_for_object(id);
        proof {
            lemma_lookup_id_view(table@, id, oid);
            if table_lookup(old(table)@, oid) is Some {
                assert(table_lookup(t0, oid) == table_lookup(old(table)@, oid));
            }
        }
        assets.push(
            ImportedAssetModel {
                id: uuid,
                search_tags,
                asset_data: ImportedAssetData::Material(items[i].asset),
            },
        );
        proof {
            assert forall|m: int|
                0 <= m < i + 1 implies material_asset_ok(
                #[trigger] assets@[base + m],
                materials@[m],
                m as usize,
                old(table)@,
                table@,
            ) by {
                if m < i {
                    assert(assets@[base + m] == a0[base + m]);
                    assert(material_asset_ok(
                        a0[base + m],
                        materials@[m],
                        m as usize,
                        old(table)@,
                        t0,
                    ));
                    assert(table_lookup(t0, object_id_spec(materials@[m].name, m as usize))
                        == Some(a0[base + m].id));
                } else {
                    assert(assets@[base + m].id == uuid);
                    assert(table_lookup(table@, oid) == Some(uuid));
                }
            }
        }
        i = i + 1;
    }
}

/// Whether `a` is the imported material instance of material `i` of the
/// document.
pub open spec fn material_instance_asset_ok(
    a: ImportedAssetModel,
    m: GltfMaterialModel,
    i: usize,
    old_t: Seq<UuidEntry>,
    new_t: Seq<UuidEntry>,
) -> bool {
    &&& a.asset_data matches ImportedAssetData::MaterialInstance(slots) && instance_slots_for(
        slots@,
        m.textures,
    )
    &&& uuid_assigned(a.id, object_id_spec(m.name, i), old_t, new_t)
    &&& tags_for(a.search_tags@, TagKey::MaterialName, m.name)
}

/// Emit one material instance per extracted material, assigning its UUID
/// under the material's identity in the material-instance table.
fn import_material_instance_assets(
    materials: &Vec<GltfMaterialModel>,
    items: &Vec<MaterialToImport>,
    table: &mut UuidTable,
    assets: &mut Vec<ImportedAssetModel>,
)
    requires
        old(table).wf(),
        items@.len() == materials@.len(),
        forall|i: int|
            0 <= i < materials@.len() ==> asset_matches_refs(
                (#[trigger] items@[i]).asset,
                materials@[i].textures,
            ),
    ensures
        final (table).wf(),
        table_extends(old(table)@, final (table)@),
        final (assets)@.len() == old(assets)@.len() + materials@.len(),
        forall|m: int| 0 <= m < old(assets)@.len() ==> final (assets)@[m] == old(assets)@[m],
        forall|i: int|
            0 <= i < materials@.len() ==> material_instance_asset_ok(
                #[trigger] final (assets)@[old(assets)@.len() + i],
                materials@[i],
                i as usize,
                old(table)@,
                final (table)@,
            ),
{
    let ghost base = old(assets)@.len() as int;
    let mut i: usize = 0;
    while i < materials.len()
        invariant
            i <= materials@.len(),
            items@.len() == materials@.len(),
            forall|m: int|
                0 <= m < materials@.len() ==> asset_matches_refs(
                    (#[trigger] items@[m]).asset,
                    materials@[m].textures,
                ),
            table.wf(),
            table_extends(old(table)@, table@),
            base == old(assets)@.len(),
            assets@.len() == base + i,
            forall|m: int| 0 <= m < base ==> assets@[m] == old(assets)@[m],
            forall|m: int|
                0 <= m < i ==> material_instance_asset_ok(
                    #[trigger] assets@[base + m],
                    materials@[m],
                    m as usize,
                    old(table)@,
                    table@,
                ),
        decreases materials@.len() - i,
    {
        let material = &materials[i];
        let search_tags = tags_for_name(TagKey::MaterialName, &material.name);
        let slot_assignments = material_instance_slots(&items[i].asset);
        proof {
            assert(instance_slots_for(slot_assignments@, material.textures));
        }
        let id = object_id_for(&material.name, i);
        let ghost oid = object_id_spec(material.name, i);
        let ghost t0 = table@;
        proof {
            lemma_names_object_id_eq(id, material.name, i);
            lemma_lookup_id_view(t0, id, oid);
            lemma_lookup_id_view(old(table)@, id, oid);
        }
        let ghost a0 = assets@;
        let uuid = table.uuid_for_object(id);
        proof {
            lemma_lookup_id_view(table@, id, oid);
            if table_lookup(old(table)@, oid) is Some {
                assert(table_lookup(t0, oid) == table_lookup(old(table)@, oid));
            }
        }
        assets.push(
            ImportedAssetModel {
                id: uuid,
                search_tags,
                asset_data: ImportedAssetData::MaterialInstance(slot_assignments),
            },
        );
        proof {
            assert forall|m: int|
                0 <= m < i + 1 implies material_instance_asset_ok(
                #[trigger] assets@[base + m],
                materials@[m],
                m as usize,
                old(table)@,
                table@,
            ) by {
                if m < i {
                    assert(assets@[base + m] == a0[base + m]);
                    assert(material_instance_asset_ok(
                        a0[base + m],
                        materials@[m],
                        m as usize,
                        old(table)@,
                        t0,
                    ));
                    assert(table_lookup(t0, object_id_spec(materials@[m].name, m as usize))
                        == Some(a0[base + m].id));
                } else {
                    assert(assets@[base + m].id == uuid);
                    assert(table_lookup(table@, oid) == Some(uuid));
                }
            }
        }
        i = i + 1;
    }
}

/// The bytes of buffer `b` of the extraction: buffers come two per mesh,
/// the shared vertex buffer then the shared index buffer.
pub open spec fn buffer_bytes_of(meshes: Seq<GltfMeshModel>, b: int) -> Seq<u8> {
    if b % 2 == 0 {
        mesh_vertex_bytes(meshes[b / 2].primitives@)
    } else {
        mesh_index_bytes(meshes[b / 2].primitives@)
    }
}

/// Whether `a` is the imported asset of buffer `b` of the extraction.
pub open spec fn buffer_asset_ok(
    a: ImportedAssetModel,
    meshes: Seq<GltfMeshModel>,
    b: int,
    old_t: Seq<UuidEntry>,
    new_t: Seq<UuidEntry>,
) -> bool {
    &&& a.asset_data matches ImportedAssetData::Buffer(d) && d.data@ == buffer_bytes_of(meshes, b)
    &&& uuid_assigned(a.id, GltfObjectId::Index(b as usize), old_t, new_t)
    &&& a.search_tags@.len() == 0
}

/// Emit one asset per extracted buffer, assigning each buffer's UUID under
/// its position in the buffer table. The extraction already registered the
/// positions, so every assignment is a lookup hit.
fn import_buffer_assets(
    meshes: &Vec<GltfMeshModel>,
    items: Vec<BufferToImport>,
    table: &mut UuidTable,
    assets: &mut Vec<ImportedAssetModel>,
)
    requires
        old(table).wf(),
        items@.len() == 2 * meshes@.len(),
        forall|b: int|
            0 <= b < items@.len() ==> (#[trigger] items@[b]).asset.data@ == buffer_bytes_of(
                meshes@,
                b,
            ),
    ensures
        final (table).wf(),
        table_extends(old(table)@, final (table)@),
        final (assets)@.len() == old(assets)@.len() + 2 * meshes@.len(),
        forall|m: int| 0 <= m < old(assets)@.len() ==> final (assets)@[m] == old(assets)@[m],
        forall|b: int|
            0 <= b < 2 * meshes@.len() ==> buffer_asset_ok(
                #[trigger] final (assets)@[old(assets)@.len() + b],
                meshes@,
                b,
                old(table)@,
                final (table)@,
            ),
{
    let ghost base = old(assets)@.len() as int;
    let ghost orig_items = items@;
    let mut items = items;
    let mut b: usize = 0;
    let item_count = items.len();
    while b < item_count
        invariant
            b <= orig_items.len(),
            item_count == orig_items.len(),
            orig_items.len() == 2 * meshes@.len(),
            items@ == orig_items.skip(b as int),
            forall|m: int|
                0 <= m < orig_items.len() ==> (#[trigger] orig_items[m]).asset.data@
                    == buffer_bytes_of(meshes@, m),
            table.wf(),
            table_extends(old(table)@, table@),
            base == old(assets)@.len(),
            assets@.len() == base + b,
            forall|m: int| 0 <= m < base ==> assets@[m] == old(assets)@[m],
            forall|m: int|
                0 <= m < b ==> buffer_asset_ok(
                    #[trigger] assets@[base + m],
                    meshes@,
                    m,
                    old(table)@,
                    table@,
                ),
        decreases orig_items.len() - b,
    {
        let item = items.remove(0);
        proof {
            assert(orig_items.skip(b as int)[0] == orig_items[b as int]);
            assert(orig_items.skip(b as int).remove(0) =~= orig_items.skip(b + 1));
        }
        let ghost oid = GltfObjectId::Index(b);
        let ghost t0 = table@;
        let ghost a0 = assets@;
        let uuid = table.uuid_for_object(GltfObjectId::Index(b));
        proof {
            if table_lookup(old(table)@, oid) is Some {
                assert(table_lookup(t0, oid) == table_lookup(old(table)@, oid));
            }
        }
        assets.push(
            ImportedAssetModel {
                id: uuid,
                search_tags: Vec::new(),
                asset_data: ImportedAssetData::Buffer(item.asset),
            },
        );
        proof {
            assert forall|m: int|
                0 <= m < b + 1 implies buffer_asset_ok(
                #[trigger] assets@[base + m],
                meshes@,
                m,
                old(table)@,
                table@,
            ) by {
                if m < b {
                    assert(assets@[base + m] == a0[base + m]);
                    assert(buffer_asset_ok(a0[base + m], meshes@, m, old(table)@, t0));
                    assert(table_lookup(t0, GltfObjectId::Index(m as usize)) == Some(
                        a0[base + m].id,
                    ));
                } else {
                    assert(assets@[base + m].id == uuid);
                    assert(table_lookup(table@, oid) == Some(uuid));
                }
            }
        }
        b = b + 1;
    }
}

/// Whether `a` is the imported asset of mesh `k` of the document.
pub open spec fn mesh_asset_ok(
    a: ImportedAssetModel,
    mesh: GltfMeshModel,
    k: usize,
    old_t: Seq<UuidEntry>,
    new_t: Seq<UuidEntry>,
) -> bool {
    &&& a.asset_data matches ImportedAssetData::Mesh(md) && md.mesh_parts@ == mesh_parts_of(
        mesh.primitives@,
    ) && md.vertex_buffer == 2 * k && md.index_buffer == 2 * k + 1
    &&& uuid_assigned(a.id, object_id_spec(mesh.name, k), old_t, new_t)
    &&& tags_for(a.search_tags@, TagKey::MeshName, mesh.name)
}

/// Emit one asset per extracted mesh, assigning each mesh's UUID under its
/// identity in the mesh table.
fn import_mesh_assets(
    meshes: &Vec<GltfMeshModel>,
    items: Vec<MeshToImport>,
    table: &mut UuidTable,
    assets: &mut Vec<ImportedAssetModel>,
)
    requires
        old(table).wf(),
        items@.len() == meshes@.len(),
        forall|k: int|
            0 <= k < meshes@.len() ==> (#[trigger] items@[k]).asset.mesh_parts@ == mesh_parts_of(
                meshes@[k].primitives@,
            ) && items@[k].asset.vertex_buffer == 2 * k && items@[k].asset.index_buffer == 2 * k
                + 1,
    ensures
        final (table).wf(),
        table_extends(old(table)@, final (table)@),
        final (assets)@.len() == old(assets)@.len() + meshes@.len(),
        forall|m: int| 0 <= m < old(assets)@.len() ==> final (assets)@[m] == old(assets)@[m],
        forall|k: int|
            0 <= k < meshes@.len() ==> mesh_asset_ok(
                #[trigger] final (assets)@[old(assets)@.len() + k],
                meshes@[k],
                k as usize,
                old(table)@,
                final (table)@,
            ),
{
    let ghost base = old(assets)@.len() as int;
    let ghost orig_items = items@;
    let mut items = items;
    let mut k: usize = 0;
    while k < meshes.len()
        invariant
            k <= meshes@.len(),
            orig_items.len() == meshes@.len(),
            items@ == orig_items.skip(k as int),
            forall|m: int|
                0 <= m < meshes@.len() ==> (#[trigger] orig_items[m]).asset.mesh_parts@
                    == mesh_parts_of(meshes@[m].primitives@) && orig_items[m].asset.vertex_buffer
                    == 2 * m && orig_items[m].asset.index_buffer == 2 * m + 1,
            table.wf(),
            table_extends(old(table)@, table@),
            base == old(assets)@.len(),
            assets@.len() == base + k,
            forall|m: int| 0 <= m < base ==> assets@[m] == old(assets)@[m],
            forall|m: int|
                0 <= m < k ==> mesh_asset_ok(
                    #[trigger] assets@[base + m],
                    meshes@[m],
                    m as usize,
                    old(table)@,
                    table@,
                ),
        decreases meshes@.len() - k,
    {
        let item = items.remove(0);
        proof {
            assert(orig_items.skip(k as int)[0] == orig_items[k as int]);
            assert(orig_items.skip(k as int).remove(0) =~= orig_items.skip(k + 1));
        }
        let mesh = &meshes[k];
        let search_tags = tags_for_name(TagKey::MeshName, &mesh.name);
        let id = object_id_for(&mesh.name, k);
        let ghost oid = object_id_spec(mesh.name, k);
        let ghost t0 = table@;
        proof {
            lemma_names_object_id_eq(id, mesh.name, k);
            lemma_lookup_id_view(t0, id, oid);
            lemma_lookup_id_view(old(table)@, id, oid);
        }
        let ghost a0 = assets@;
        let uuid = table.uuid_for_object(id);
        proof {
            lemma_lookup_id_view(table@, id, oid);
            if table_lookup(old(table)@, oid) is Some {
                assert(table_lookup(t0, oid) == table_lookup(old(table)@, oid));
            }
        }
        assets.push(
            ImportedAssetModel {
                id: uuid,
                search_tags,
                asset_data: ImportedAssetData::Mesh(item.asset),
            },
        );
        proof {
            assert forall|m: int|
                0 <= m < k + 1 implies mesh_asset_ok(
                #[trigger] assets@[base + m],
                meshes@[m],
                m as usize,
                old(table)@,
                table@,
            ) by {
                if m < k {
                    assert(assets@[base + m] == a0[base + m]);
                    assert(mesh_asset_ok(a0[base + m], meshes@[m], m as usize, old(table)@, t0));
                    assert(table_lookup(t0, object_id_spec(meshes@[m].name, m as usize)) == Some(
                        a0[base + m].id,
                    ));
                } else {
                    assert(assets@[base + m].id == uuid);
                    assert(table_lookup(table@, oid) == Some(uuid));
                }
            }
        }
        k = k + 1;
    }
}

/// Whether `a` is the imported asset of scene `s` of the document.
pub open spec fn prefab_asset_ok(
    a: ImportedAssetModel,
    scene: GltfSceneModel,
    s: usize,
    old_t: Seq<UuidEntry>,
    new_t: Seq<UuidEntry>,
) -> bool {
    &&& a.asset_data is Prefab
    &&& uuid_assigned(a.id, object_id_spec(scene.name, s), old_t, new_t)
    &&& tags_for(a.search_tags@, TagKey::SceneName, scene.name)
}

/// Emit one asset per extracted prefab, under the UUID the prefab table
/// assigned to its scene.
fn import_prefab_assets(
    scenes: &Vec<GltfSceneModel>,
    items: Vec<PrefabToImport>,
    table: &UuidTable,
    Ghost(old_t): Ghost<Seq<UuidEntry>>,
    assets: &mut Vec<ImportedAssetModel>,
)
    requires
        items@.len() == scenes@.len(),
        forall|s: int|
            0 <= s < scenes@.len() ==> names_object(
                (#[trigger] items@[s]).id,
                scenes@[s].name,
                s as usize,
            ),
        forall|s: int|
            0 <= s < scenes@.len() ==> table_lookup(table@, (#[trigger] items@[s]).id) == Some(
                items@[s].prefab_id,
            ),
        forall|s: int|
            0 <= s < scenes@.len() && table_lookup(old_t, (#[trigger] items@[s]).id) is Some
                ==> Some(items@[s].prefab_id) == table_lookup(old_t, items@[s].id),
    ensures
        final (assets)@.len() == old(assets)@.len() + scenes@.len(),
        forall|m: int| 0 <= m < old(assets)@.len() ==> final (assets)@[m] == old(assets)@[m],
        forall|s: int|
            0 <= s < scenes@.len() ==> prefab_asset_ok(
                #[trigger] final (assets)@[old(assets)@.len() + s],
                scenes@[s],
                s as usize,
                old_t,
                table@,
            ),
{
    let ghost base = old(assets)@.len() as int;
    let ghost orig_items = items@;
    let mut items = items;
    let mut s: usize = 0;
    while s < scenes.len()
        invariant
            s <= scenes@.len(),
            orig_items.len() == scenes@.len(),
            items@ == orig_items.skip(s as int),
            forall|m: int|
                0 <= m < scenes@.len() ==> names_object(
                    (#[trigger] orig_items[m]).id,
                    scenes@[m].name,
                    m as usize,
                ),
            forall|m: int|
                0 <= m < scenes@.len() ==> table_lookup(table@, (#[trigger] orig_items[m]).id)
                    == Some(orig_items[m].prefab_id),
            forall|m: int|
                0 <= m < scenes@.len() && table_lookup(old_t, (#[trigger] orig_items[m]).id)
                    is Some ==> Some(orig_items[m].prefab_id) == table_lookup(
                    old_t,
                    orig_items[m].id,
                ),
            base == old(assets)@.len(),
            assets@.len() == base + s,
            forall|m: int| 0 <= m < base ==> assets@[m] == old(assets)@[m],
            forall|m: int|
                0 <= m < s ==> prefab_asset_ok(
                    #[trigger] assets@[base + m],
                    scenes@[m],
                    m as usize,
                    old_t,
                    table@,
                ),
        decreases scenes@.len() - s,
    {
        let item = items.remove(0);
        proof {
            assert(orig_items.skip(s as int)[0] == orig_items[s as int]);
            assert(orig_items.skip(s as int).remove(0) =~= orig_items.skip(s + 1));
        }
        let scene = &scenes[s];
        let search_tags = tags_for_name(TagKey::SceneName, &scene.name);
        let ghost oid = object_id_spec(scene.name, s);
        proof {
            lemma_names_object_id_eq(item.id, scene.name, s);
            lemma_lookup_id_view(table@, item.id, oid);
            lemma_lookup_id_view(old_t, item.id, oid);
        }
        assets.push(
            ImportedAssetModel {
                id: item.prefab_id,
                search_tags,
                asset_data: ImportedAssetData::Prefab,
            },
        );
        s = s + 1;
    }
}

/// Carrying an assignment across an import: what a table assigned while the
/// working state grew still holds against the persisted tables around it,
/// since copying changes no lookup, the work only extends, and sorting
/// changes no lookup either.
proof fn lemma_segment_transfer(
    old_s: Seq<UuidEntry>,
    u0: Seq<UuidEntry>,
    u1: Seq<UuidEntry>,
    fin: Seq<UuidEntry>,
)
    requires
        forall|id: GltfObjectId| #![auto] table_lookup(u0, id) == table_lookup(old_s, id),
        table_extends(u0, u1),
        forall|id: GltfObjectId| #![auto] table_lookup(fin, id) == table_lookup(u1, id),
    ensures
        table_extends(old_s, fin),
        forall|u: AssetUuid, id: GltfObjectId|
            #![auto]
            uuid_assigned(u, id, u0, u1) ==> uuid_assigned(u, id, old_s, fin),
{
}

/// The GLTF importer: stateless itself, it carries a document's objects into
/// assets while the persisted state carries identity across imports.
pub struct GltfImporter;

impl GltfImporter {
    /// Version of the import logic, bumped when the produced assets change.
    pub fn version_static() -> (r: u32)
        ensures
            r == 27,
    {
        27
    }

    /// Version of the import logic.
    pub fn version(&self) -> (r: u32)
        ensures
            r == 27,
    {
        GltfImporter::version_static()
    }

    /// Walk the document's images, materials and material instances and
    /// emit their assets, assigning UUIDs through the working state.
    #[verifier::rlimit(100)]
    fn build_media_assets(
        model: &GltfDocumentModel,
        unstable: &mut GltfImporterStateUnstable,
        assets: &mut Vec<ImportedAssetModel>,
    )
        requires
            old(unstable).wf(),
            model.wf(),
            old(assets)@.len() == 0,
            forall|i: int|
                0 <= i < model.images@.len() ==> (
                #[trigger] model.images@[i]).format.spec_convertible(),
        ensures
            final (unstable).wf(),
            table_extends(old(unstable).image_asset_uuids@, final (unstable).image_asset_uuids@),
            table_extends(
                old(unstable).material_asset_uuids@,
                final (unstable).material_asset_uuids@,
            ),
            table_extends(
                old(unstable).material_instance_asset_uuids@,
                final (unstable).material_instance_asset_uuids@,
            ),
            final (unstable).buffer_asset_uuids == old(unstable).buffer_asset_uuids,
            final (unstable).mesh_asset_uuids == old(unstable).mesh_asset_uuids,
            final (unstable).prefab_asset_uuids == old(unstable).prefab_asset_uuids,
            final (assets)@.len() == model.images@.len() + 2 * model.materials@.len(),
            forall|p: int|
                0 <= p < model.images@.len() ==> image_asset_ok(
                    #[trigger] final (assets)@[p],
                    model.images@[p],
                    p as usize,
                    model.materials@,
                    old(unstable).image_asset_uuids@,
                    final (unstable).image_asset_uuids@,
                ),
            forall|p: int|
                model.images@.len() <= p < model.images@.len() + model.materials@.len()
                    ==> material_asset_ok(
                    #[trigger] final (assets)@[p],
                    model.materials@[p - model.images@.len()],
                    (p - model.images@.len()) as usize,
                    old(unstable).material_asset_uuids@,
                    final (unstable).material_asset_uuids@,
                ),
            forall|p: int|
                model.images@.len() + model.materials@.len() <= p < model.images@.len() + 2
                    * model.materials@.len() ==> material_instance_asset_ok(
                    #[trigger] final (assets)@[p],
                    model.materials@[p - model.images@.len() - model.materials@.len()],
                    (p - model.images@.len() - model.materials@.len()) as usize,
                    old(unstable).material_instance_asset_uuids@,
                    final (unstable).material_instance_asset_uuids@,
                ),
    {
        let image_color_space_assignments = build_image_color_space_assignments_from_materials(
            &model.materials,
            model.images.len(),
        );
        let images_to_import = extract_images_to_import(
            &model.images,
            &model.materials,
            &image_color_space_assignments,
        );
        let materials_to_import = extract_materials_to_import(&model.materials);

        let ghost pre1 = assets@;
        let ghost img_t0 = unstable.image_asset_uuids@;
        import_image_assets(
            &model.images,
            &model.materials,
            images_to_import,
            &mut unstable.image_asset_uuids,
            assets,
        );
        let ghost a1 = assets@;
        let ghost img_t1 = unstable.image_asset_uuids@;

        let ghost mat_t0 = unstable.material_asset_uuids@;
        import_material_assets(
            &model.materials,
            &materials_to_import,
            &mut unstable.material_asset_uuids,
            assets,
        );
        let ghost a2 = assets@;
        let ghost mat_t1 = unstable.material_asset_uuids@;

        let ghost ins_t0 = unstable.material_instance_asset_uuids@;
        import_material_instance_assets(
            &model.materials,
            &materials_to_import,
            &mut unstable.material_instance_asset_uuids,
            assets,
        );
        proof {
            let ni = model.images@.len() as int;
            let nm = model.materials@.len() as int;
            assert(forall|m: int| 0 <= m < a2.len() ==> assets@[m] == a2[m]);
            assert(forall|m: int| 0 <= m < a1.len() ==> a2[m] == a1[m]);
            assert forall|p: int|
                0 <= p < ni implies image_asset_ok(
                #[trigger] assets@[p],
                model.images@[p],
                p as usize,
                model.materials@,
                img_t0,
                img_t1,
            ) by {
                assert(image_asset_ok(
                    a1[pre1.len() + p],
                    model.images@[p],
                    p as usize,
                    model.materials@,
                    img_t0,
                    img_t1,
                ));
                assert(pre1.len() + p == p);
                assert(assets@[p] == a2[p]);
                assert(a2[p] == a1[p]);
            }
            assert forall|p: int|
                ni <= p < ni + nm implies material_asset_ok(
                #[trigger] assets@[p],
                model.materials@[p - ni],
                (p - ni) as usize,
                mat_t0,
                mat_t1,
            ) by {
                let i = p - ni;
                assert(material_asset_ok(
                    a2[a1.len() + i],
                    model.materials@[i],
                    i as usize,
                    mat_t0,
                    mat_t1,
                ));
                assert(a1.len() + i == p);
                assert(assets@[p] == a2[p]);
            }
            assert forall|p: int|
                ni + nm <= p < ni + 2 * nm implies material_instance_asset_ok(
                #[trigger] assets@[p],
                model.materials@[p - ni - nm],
                (p - ni - nm) as usize,
                ins_t0,
                unstable.material_instance_asset_uuids@,
            ) by {
                let i = p - ni - nm;
                assert(material_instance_asset_ok(
                    assets@[a2.len() + i],
                    model.materials@[i],
                    i as usize,
                    ins_t0,
                    unstable.material_instance_asset_uuids@,
                ));
                assert(a2.len() + i == p);
            }
        }
    }

    /// Walk the document's buffers, meshes and scenes and emit their
    /// assets, appending after what is already in `assets`. Fails exactly
    /// when some accepted primitive names no material, leaving `assets`
    /// untouched.
    #[verifier::rlimit(100)]
    fn build_geometry_assets(
        model: &GltfDocumentModel,
        unstable: &mut GltfImporterStateUnstable,
        assets: &mut Vec<ImportedAssetModel>,
    ) -> (r: Result<(), GltfImportError>)
        requires
            old(unstable).wf(),
            model.wf(),
            forall|k: int|
                0 <= k < model.meshes@.len() ==> mesh_vertex_bytes(
                    (#[trigger] model.meshes@[k]).primitives@,
                ).len() <= u32::MAX && mesh_index_bytes(model.meshes@[k].primitives@).len()
                    <= u32::MAX,
        ensures
            final (unstable).wf(),
            table_extends(old(unstable).buffer_asset_uuids@, final (unstable).buffer_asset_uuids@),
            table_extends(old(unstable).mesh_asset_uuids@, final (unstable).mesh_asset_uuids@),
            table_extends(old(unstable).prefab_asset_uuids@, final (unstable).prefab_asset_uuids@),
            final (unstable).image_asset_uuids == old(unstable).image_asset_uuids,
            final (unstable).material_asset_uuids == old(unstable).material_asset_uuids,
            final (unstable).material_instance_asset_uuids == old(
                unstable,
            ).material_instance_asset_uuids,
            r is Ok <==> meshes_ok(model.meshes@),
            r matches Err(e) ==> e.error_message@ == "A mesh primitive did not have a material"@
                && final (assets)@ == old(assets)@,
            forall|m: int| 0 <= m < old(assets)@.len() ==> final (assets)@[m] == old(assets)@[m],
            r is Ok ==> final (assets)@.len() == old(assets)@.len() + 3 * model.meshes@.len()
                + model.scenes@.len(),
            r is Ok ==> forall|p: int|
                old(assets)@.len() <= p < old(assets)@.len() + 2 * model.meshes@.len()
                    ==> buffer_asset_ok(
                    #[trigger] final (assets)@[p],
                    model.meshes@,
                    p - old(assets)@.len(),
                    old(unstable).buffer_asset_uuids@,
                    final (unstable).buffer_asset_uuids@,
                ),
            r is Ok ==> forall|p: int|
                old(assets)@.len() + 2 * model.meshes@.len() <= p < old(assets)@.len() + 3
                    * model.meshes@.len() ==> mesh_asset_ok(
                    #[trigger] final (assets)@[p],
                    model.meshes@[p - old(assets)@.len() - 2 * model.meshes@.len()],
                    (p - old(assets)@.len() - 2 * model.meshes@.len()) as usize,
                    old(unstable).mesh_asset_uuids@,
                    final (unstable).mesh_asset_uuids@,
                ),
            r is Ok ==> forall|p: int|
                old(assets)@.len() + 3 * model.meshes@.len() <= p < old(assets)@.len() + 3
                    * model.meshes@.len() + model.scenes@.len() ==> prefab_asset_ok(
                    #[trigger] final (assets)@[p],
                    model.scenes@[p - old(assets)@.len() - 3 * model.meshes@.len()],
                    (p - old(assets)@.len() - 3 * model.meshes@.len()) as usize,
                    old(unstable).prefab_asset_uuids@,
                    final (unstable).prefab_asset_uuids@,
                ),
    {
        let ghost buf_t0 = unstable.buffer_asset_uuids@;
        let extraction = extract_meshes_to_import(
            unstable,
            &model.meshes,
            model.materials.len(),
        );
        let (meshes_to_import, buffers_to_import) = match extraction {
            Ok(v) => v,
            Err(e) => {
                return Err(e);
            }
        };
        let ghost buf_t1 = unstable.buffer_asset_uuids@;

        proof {
            assert forall|b: int|
                0 <= b < buffers_to_import@.len() implies (
            #[trigger] buffers_to_import@[b]).asset.data@ == buffer_bytes_of(model.meshes@, b) by {
                let k = b / 2;
                if b % 2 == 0 {
                    assert(b == 2 * k);
                    assert(buffers_to_import@[2 * k].asset.data@ == mesh_vertex_bytes(
                        model.meshes@[k].primitives@,
                    ));
                } else {
                    assert(b == 2 * k + 1);
                    assert(buffers_to_import@[2 * k + 1].asset.data@ == mesh_index_bytes(
                        model.meshes@[k].primitives@,
                    ));
                }
            }
        }
        let ghost a3 = assets@;
        import_buffer_assets(
            &model.meshes,
            buffers_to_import,
            &mut unstable.buffer_asset_uuids,
            assets,
        );
        let ghost a4 = assets@;
        let ghost buf_t2 = unstable.buffer_asset_uuids@;

        let ghost mesh_t0 = unstable.mesh_asset_uuids@;
        import_mesh_assets(
            &model.meshes,
            meshes_to_import,
            &mut unstable.mesh_asset_uuids,
            assets,
        );
        let ghost a5 = assets@;

        let ghost pre_t0 = unstable.prefab_asset_uuids@;
        let prefabs_to_import = extract_prefabs_to_import(
            &model.scenes,
            &mut unstable.prefab_asset_uuids,
        );
        import_prefab_assets(
            &model.scenes,
            prefabs_to_import,
            &unstable.prefab_asset_uuids,
            Ghost(pre_t0),
            assets,
        );
        proof {
            let nme = model.meshes@.len() as int;
            let ns = model.scenes@.len() as int;
            let base = a3.len() as int;
            assert(forall|m: int| 0 <= m < a5.len() ==> assets@[m] == a5[m]);
            assert(forall|m: int| 0 <= m < a4.len() ==> a5[m] == a4[m]);
            assert forall|p: int|
                base <= p < base + 2 * nme implies buffer_asset_ok(
                #[trigger] assets@[p],
                model.meshes@,
                p - base,
                old(unstable).buffer_asset_uuids@,
                unstable.buffer_asset_uuids@,
            ) by {
                let b = p - base;
                assert(assets@[p] == a4[p]);
                assert(a4[a3.len() + b] == a4[p]);
                assert(buffer_asset_ok(a4[a3.len() + b], model.meshes@, b, buf_t1, buf_t2));
                let oid = GltfObjectId::Index(b as usize);
                if table_lookup(buf_t0, oid) is Some {
                    assert(table_lookup(buf_t1, oid) == table_lookup(buf_t0, oid));
                }
            }
            assert forall|p: int|
                base + 2 * nme <= p < base + 3 * nme implies mesh_asset_ok(
                #[trigger] assets@[p],
                model.meshes@[p - base - 2 * nme],
                (p - base - 2 * nme) as usize,
                mesh_t0,
                unstable.mesh_asset_uuids@,
            ) by {
                let k = p - base - 2 * nme;
                assert(assets@[p] == a5[p]);
                assert(a5[a4.len() + k] == a5[p]);
                assert(mesh_asset_ok(
                    a5[a4.len() + k],
                    model.meshes@[k],
                    k as usize,
                    mesh_t0,
                    unstable.mesh_asset_uuids@,
                ));
            }
            assert forall|p: int|
                base + 3 * nme <= p < base + 3 * nme + ns implies prefab_asset_ok(
                #[trigger] assets@[p],
                model.scenes@[p - base - 3 * nme],
                (p - base - 3 * nme) as usize,
                pre_t0,
                unstable.prefab_asset_uuids@,
            ) by {
                let s = p - base - 3 * nme;
                assert(assets@[a5.len() + s] == assets@[p]);
                assert(prefab_asset_ok(
                    assets@[a5.len() + s],
                    model.scenes@[s],
                    s as usize,
                    pre_t0,
                    unstable.prefab_asset_uuids@,
                ));
            }
        }
        Ok(())
    }
    /// Import one parsed document: emit, in a fixed order, one asset per
    /// image, material, material instance, buffer, mesh and scene, each
    /// under the UUID its identity is persisted with (fresh identities are
    /// recorded). Succeeds exactly when every accepted mesh primitive names
    /// a material; on failure the persisted state is left untouched. On
    /// success the state keeps every earlier association, so an unchanged
    /// document reuses all its UUIDs.
    #[verifier::rlimit(100)]
    pub fn import(
        &self,
        model: &GltfDocumentModel,
        stable_state: &mut GltfImporterStateStable,
    ) -> (r: Result<ImporterValue, GltfImportError>)
        requires
            old(stable_state).wf(),
            model.wf(),
            forall|i: int|
                0 <= i < model.images@.len() ==> (
                #[trigger] model.images@[i]).format.spec_convertible(),
            forall|k: int|
                0 <= k < model.meshes@.len() ==> mesh_vertex_bytes(
                    (#[trigger] model.meshes@[k]).primitives@,
                ).len() <= u32::MAX && mesh_index_bytes(model.meshes@[k].primitives@).len()
                    <= u32::MAX,
        ensures
            r is Ok <==> meshes_ok(model.meshes@),
            r matches Err(e) ==> *final (stable_state) == *old(stable_state) && e.error_message@
                == "A mesh primitive did not have a material"@,
            r is Ok ==> final (stable_state).wf(),
            r is Ok ==> table_extends(
                old(stable_state).image_asset_uuids@,
                final (stable_state).image_asset_uuids@,
            ),
            r is Ok ==> table_extends(
                old(stable_state).material_asset_uuids@,
                final (stable_state).material_asset_uuids@,
            ),
            r is Ok ==> table_extends(
                old(stable_state).material_instance_asset_uuids@,
                final (stable_state).material_instance_asset_uuids@,
            ),
            r is Ok ==> table_extends(
                old(stable_state).buffer_asset_uuids@,
                final (stable_state).buffer_asset_uuids@,
            ),
            r is Ok ==> table_extends(
                old(stable_state).mesh_asset_uuids@,
                final (stable_state).mesh_asset_uuids@,
            ),
            r is Ok ==> table_extends(
                old(stable_state).prefab_asset_uuids@,
                final (stable_state).prefab_asset_uuids@,
            ),
            r is Ok ==> r->Ok_0.assets@.len() == model.images@.len() + 2 * model.materials@.len()
                + 3 * model.meshes@.len() + model.scenes@.len(),
            r is Ok ==> forall|i: int|
                0 <= i < model.images@.len() ==> image_asset_ok(
                    #[trigger] r->Ok_0.assets@[i],
                    model.images@[i],
                    i as usize,
                    model.materials@,
                    old(stable_state).image_asset_uuids@,
                    final (stable_state).image_asset_uuids@,
                ),
            r is Ok ==> forall|i: int|
                0 <= i < model.materials@.len() ==> material_asset_ok(
                    #[trigger] r->Ok_0.assets@[model.images@.len() + i],
                    model.materials@[i],
                    i as usize,
                    old(stable_state).material_asset_uuids@,
                    final (stable_state).material_asset_uuids@,
                ),
            r is Ok ==> forall|i: int|
                0 <= i < model.materials@.len() ==> material_instance_asset_ok(
                    #[trigger] r->Ok_0.assets@[model.images@.len() + model.materials@.len() + i],
                    model.materials@[i],
                    i as usize,
                    old(stable_state).material_instance_asset_uuids@,
                    final (stable_state).material_instance_asset_uuids@,
                ),
            r is Ok ==> forall|b: int|
                0 <= b < 2 * model.meshes@.len() ==> buffer_asset_ok(
                    #[trigger] r->Ok_0.assets@[model.images@.len() + 2 * model.materials@.len()
                        + b],
                    model.meshes@,
                    b,
                    old(stable_state).buffer_asset_uuids@,
                    final (stable_state).buffer_asset_uuids@,
                ),
            r is Ok ==> forall|k: int|
                0 <= k < model.meshes@.len() ==> mesh_asset_ok(
                    #[trigger] r->Ok_0.assets@[model.images@.len() + 2 * model.materials@.len() + 2
                        * model.meshes@.len() + k],
                    model.meshes@[k],
                    k as usize,
                    old(stable_state).mesh_asset_uuids@,
                    final (stable_state).mesh_asset_uuids@,
                ),
            r is Ok ==> forall|s: int|
                0 <= s < model.scenes@.len() ==> prefab_asset_ok(
                    #[trigger] r->Ok_0.assets@[model.images@.len() + 2 * model.materials@.len() + 3
                        * model.meshes@.len() + s],
                    model.scenes@[s],
                    s as usize,
                    old(stable_state).prefab_asset_uuids@,
                    final (stable_state).prefab_asset_uuids@,
                ),
    {
        let mut unstable = GltfImporterStateUnstable::from_stable(&*stable_state);
        let ghost u0 = unstable;
        let mut imported_assets: Vec<ImportedAssetModel> = Vec::new();
        GltfImporter::build_media_assets(model, &mut unstable, &mut imported_assets);
        let ghost umid = unstable;
        let ghost amid = imported_assets@;
        let geometry = GltfImporter::build_geometry_assets(model, &mut unstable, &mut imported_assets);
        match geometry {
            Ok(u) => u,
            Err(e) => {
                return Err(e);
            }
        };
        let ghost u1 = unstable;
        proof {
            assert(u1.image_asset_uuids@ == umid.image_asset_uuids@);
            assert(u1.material_asset_uuids@ == umid.material_asset_uuids@);
            assert(u1.material_instance_asset_uuids@ == umid.material_instance_asset_uuids@);
            assert(umid.buffer_asset_uuids@ == u0.buffer_asset_uuids@);
            assert(umid.mesh_asset_uuids@ == u0.mesh_asset_uuids@);
            assert(umid.prefab_asset_uuids@ == u0.prefab_asset_uuids@);
            assert(forall|m: int| 0 <= m < amid.len() ==> imported_assets@[m] == amid[m]);
        }
        *stable_state = GltfImporterStateStable::from_unstable(unstable);
        proof {
            lemma_segment_transfer(
                old(stable_state).image_asset_uuids@,
                u0.image_asset_uuids@,
                u1.image_asset_uuids@,
                stable_state.image_asset_uuids@,
            );
            lemma_segment_transfer(
                old(stable_state).material_asset_uuids@,
                u0.material_asset_uuids@,
                u1.material_asset_uuids@,
                stable_state.material_asset_uuids@,
            );
            lemma_segment_transfer(
                old(stable_state).material_instance_asset_uuids@,
                u0.material_instance_asset_uuids@,
                u1.material_instance_asset_uuids@,
                stable_state.material_instance_asset_uuids@,
            );
            lemma_segment_transfer(
                old(stable_state).buffer_asset_uuids@,
                u0.buffer_asset_uuids@,
                u1.buffer_asset_uuids@,
                stable_state.buffer_asset_uuids@,
            );
            lemma_segment_transfer(
                old(stable_state).mesh_asset_uuids@,
                u0.mesh_asset_uuids@,
                u1.mesh_asset_uuids@,
                stable_state.mesh_asset_uuids@,
            );
            lemma_segment_transfer(
                old(stable_state).prefab_asset_uuids@,
                u0.prefab_asset_uuids@,
                u1.prefab_asset_uuids@,
                stable_state.prefab_asset_uuids@,
            );
            let a = imported_assets@;
            let ni = model.images@.len() as int;
            let nm = model.materials@.len() as int;
            let nme = model.meshes@.len() as int;
            let ns = model.scenes@.len() as int;
            assert forall|i: int|
                0 <= i < ni implies image_asset_ok(
                #[trigger] a[i],
                model.images@[i],
                i as usize,
                model.materials@,
                old(stable_state).image_asset_uuids@,
                stable_state.image_asset_uuids@,
            ) by {
                assert(a[i] == amid[i]);
                assert(image_asset_ok(
                    amid[i],
                    model.images@[i],
                    i as usize,
                    model.materials@,
                    u0.image_asset_uuids@,
                    umid.image_asset_uuids@,
                ));
            }
            assert forall|i: int|
                0 <= i < nm implies material_asset_ok(
                #[trigger] a[ni + i],
                model.materials@[i],
                i as usize,
                old(stable_state).material_asset_uuids@,
                stable_state.material_asset_uuids@,
            ) by {
                assert(a[ni + i] == amid[ni + i]);
                assert(material_asset_ok(
                    amid[ni + i],
                    model.materials@[i],
                    i as usize,
                    u0.material_asset_uuids@,
                    umid.material_asset_uuids@,
                ));
            }
            assert forall|i: int|
                0 <= i < nm implies material_instance_asset_ok(
                #[trigger] a[ni + nm + i],
                model.materials@[i],
                i as usize,
                old(stable_state).material_instance_asset_uuids@,
                stable_state.material_instance_asset_uuids@,
            ) by {
                assert(a[ni + nm + i] == amid[ni + nm + i]);
                assert(material_instance_asset_ok(
                    amid[ni + nm + i],
                    model.materials@[i],
                    i as usize,
                    u0.material_instance_asset_uuids@,
                    umid.material_instance_asset_uuids@,
                ));
            }
            assert forall|b: int|
                0 <= b < 2 * nme implies buffer_asset_ok(
                #[trigger] a[ni + 2 * nm + b],
                model.meshes@,
                b,
                old(stable_state).buffer_asset_uuids@,
                stable_state.buffer_asset_uuids@,
            ) by {
                assert(amid.len() == ni + 2 * nm);
                assert(buffer_asset_ok(
                    a[amid.len() as int + b],
                    model.meshes@,
                    b,
                    umid.buffer_asset_uuids@,
                    u1.buffer_asset_uuids@,
                ));
            }
            assert forall|k: int|
                0 <= k < nme implies mesh_asset_ok(
                #[trigger] a[ni + 2 * nm + 2 * nme + k],
                model.meshes@[k],
                k as usize,
                old(stable_state).mesh_asset_uuids@,
                stable_state.mesh_asset_uuids@,
            ) by {
                assert(amid.len() == ni + 2 * nm);
                assert(mesh_asset_ok(
                    a[amid.len() as int + 2 * nme + k],
                    model.meshes@[k],
                    k as usize,
                    umid.mesh_asset_uuids@,
                    u1.mesh_asset_uuids@,
                ));
            }
            assert forall|s: int|
                0 <= s < ns implies prefab_asset_ok(
                #[trigger] a[ni + 2 * nm + 3 * nme + s],
                model.scenes@[s],
                s as usize,
                old(stable_state).prefab_asset_uuids@,
                stable_state.prefab_asset_uuids@,
            ) by {
                assert(amid.len() == ni + 2 * nm);
                assert(prefab_asset_ok(
                    a[amid.len() as int + 3 * nme + s],
                    model.scenes@[s],
                    s as usize,
                    umid.prefab_asset_uuids@,
                    u1.prefab_asset_uuids@,
                ));
            }
        }
        Ok(ImporterValue { assets: imported_assets })
    }
}

} // verus!
