//! Extraction of the meshes a document carries.
//!
//! Every mesh becomes one asset plus two shared buffers: all its primitives'
//! packed vertices concatenated, and all their indices concatenated as
//! little-endian 16-bit values. Each accepted primitive becomes a mesh part
//! holding byte ranges into those buffers and its material. A primitive is
//! skipped when it lacks indices or any vertex attribute, or when an index
//! does not fit in 16 bits; an accepted primitive without a material fails
//! the whole import. The buffers are registered in the persisted UUID table
//! under their position among the buffers, so re-imports reuse their UUIDs.

use vstd::prelude::*;

use crate::gltf_model::GltfMeshModel;
use crate::gltf_model::GltfPrimitiveModel;
use crate::import_error::GltfImportError;
use crate::importer_state::GltfImporterStateUnstable;
use crate::object_id::GltfObjectId;
use crate::object_id::names_object;
use crate::object_id::object_id_for;
use crate::uuid_table::table_extends;

verus! {

/// Whether every index value fits in 16 bits.
pub open spec fn fits_u16(is: Seq<u32>) -> bool {
    forall|i: int| 0 <= i < is.len() ==> is[i] <= u16::MAX
}

/// Whether a primitive is taken into the mesh: it has indices and all four
/// vertex attributes, and its indices fit in 16 bits.
pub open spec fn prim_accepted(p: GltfPrimitiveModel) -> bool {
    &&& p.indices is Some
    &&& p.vertices is Some
    &&& fits_u16(p.indices->0@)
}

/// Whether every accepted primitive names a material; without one the import
/// fails.
pub open spec fn prims_have_materials(prims: Seq<GltfPrimitiveModel>) -> bool {
    forall|i: int|
        0 <= i < prims.len() && prim_accepted(#[trigger] prims[i]) ==> prims[i].material is Some
}

/// Whether every mesh's accepted primitives name materials: the condition
/// under which mesh extraction succeeds.
pub open spec fn meshes_ok(meshes: Seq<GltfMeshModel>) -> bool {
    forall|k: int|
        0 <= k < meshes.len() ==> prims_have_materials((#[trigger] meshes[k]).primitives@)
}

/// Low byte of a 16-bit value.
pub open spec fn le_lo(x: int) -> u8 {
    (x % 256) as u8
}

/// High byte of a 16-bit value.
pub open spec fn le_hi(x: int) -> u8 {
    ((x / 256) % 256) as u8
}

/// The index values laid out as consecutive little-endian 16-bit values.
pub open spec fn le_bytes_of_indices(is: Seq<u32>) -> Seq<u8> {
    Seq::new(
        (2 * is.len()) as nat,
        |j: int|
            if j % 2 == 0 {
                le_lo(is[j / 2] as int)
            } else {
                le_hi(is[j / 2] as int)
            },
    )
}

/// The shared vertex buffer of a mesh: the accepted primitives' packed
/// vertices, concatenated in order.
pub open spec fn mesh_vertex_bytes(prims: Seq<GltfPrimitiveModel>) -> Seq<u8>
    decreases prims.len(),
{
    if prims.len() == 0 {
        Seq::empty()
    } else {
        mesh_vertex_bytes(prims.drop_last()) + (if prim_accepted(prims.last()) {
            prims.last().vertices->0.bytes@
        } else {
            Seq::empty()
        })
    }
}

/// The shared index buffer of a mesh: the accepted primitives' indices as
/// little-endian 16-bit values, concatenated in order.
pub open spec fn mesh_index_bytes(prims: Seq<GltfPrimitiveModel>) -> Seq<u8>
    decreases prims.len(),
{
    if prims.len() == 0 {
        Seq::empty()
    } else {
        mesh_index_bytes(prims.drop_last()) + (if prim_accepted(prims.last()) {
            le_bytes_of_indices(prims.last().indices->0@)
        } else {
            Seq::empty()
        })
    }
}

/// One draw range of a mesh: byte ranges into the shared vertex and index
/// buffers, and the material (and its instance) the range is drawn with.
#[derive(Clone, Copy, Debug, PartialEq, Eq, Structural)]
pub struct MeshPartData {
    pub material: usize,
    pub material_instance: usize,
    pub vertex_buffer_offset_in_bytes: u32,
    pub vertex_buffer_size_in_bytes: u32,
    pub index_buffer_offset_in_bytes: u32,
    pub index_buffer_size_in_bytes: u32,
}

/// The mesh parts that the primitives produce: one per accepted primitive,
/// its ranges sitting exactly where the primitive's data was appended.
pub open spec fn mesh_parts_of(prims: Seq<GltfPrimitiveModel>) -> Seq<MeshPartData>
    decreases prims.len(),
{
    if prims.len() == 0 {
        Seq::empty()
    } else {
        let rest = mesh_parts_of(prims.drop_last());
        let p = prims.last();
        if prim_accepted(p) {
            rest.push(
                MeshPartData {
                    material: p.material->0,
                    material_instance: p.material->0,
                    vertex_buffer_offset_in_bytes: mesh_vertex_bytes(
                        prims.drop_last(),
                    ).len() as u32,
                    vertex_buffer_size_in_bytes: p.vertices->0.bytes@.len() as u32,
                    index_buffer_offset_in_bytes: mesh_index_bytes(prims.drop_last()).len() as u32,
                    index_buffer_size_in_bytes: (2 * p.indices->0@.len()) as u32,
                },
            )
        } else {
            rest
        }
    }
}

/// A mesh asset: its parts and the positions of its two buffers among the
/// buffers the extraction produced.
pub struct MeshAssetDataModel {
    pub mesh_parts: Vec<MeshPartData>,
    pub vertex_buffer: usize,
    pub index_buffer: usize,
}

/// One mesh together with the identity its UUID is assigned under.
pub struct MeshToImport {
    pub id: GltfObjectId,
    pub asset: MeshAssetDataModel,
}

/// Raw data registered as a buffer asset.
pub struct BufferAssetData {
    pub data: Vec<u8>,
}

/// One buffer together with the identity its UUID is assigned under: its
/// position among the buffers.
pub struct BufferToImport {
    pub id: GltfObjectId,
    pub asset: BufferAssetData,
}

/// The 16-bit form of the index values, where every one fits.
pub fn convert_to_u16_indices(read_indices: &Vec<u32>) -> (r: Option<Vec<u16>>)
    ensures
        r is Some <==> fits_u16(read_indices@),
        r is Some ==> r->0@.len() == read_indices@.len(),
        r is Some ==> forall|i: int|
            0 <= i < read_indices@.len() ==> r->0@[i] == read_indices@[i] as u16,
{
    let mut indices_u16: Vec<u16> = Vec::new();
    let mut i: usize = 0;
    while i < read_indices.len()
        invariant
            i <= read_indices@.len(),
            indices_u16@.len() == i,
            forall|k: int| 0 <= k < i ==> read_indices@[k] <= u16::MAX,
            forall|k: int| 0 <= k < i ==> indices_u16@[k] == read_indices@[k] as u16,
        decreases read_indices@.len() - i,
    {
        let v = read_indices[i];
        if v > 65535 {
            return None;
        }
        indices_u16.push(v as u16);
        i = i + 1;
    }
    Some(indices_u16)
}

/// Append `src` to `dst` unchanged.
fn append_bytes(dst: &mut Vec<u8>, src: &Vec<u8>)
    ensures
        final (dst)@ == old(dst)@ + src@,
{
    let mut i: usize = 0;
    while i < src.len()
        invariant
            i <= src@.len(),
            dst@ == old(dst)@ + src@.take(i as int),
        decreases src@.len() - i,
    {
        dst.push(src[i]);
        proof {
            assert(old(dst)@ + src@.take(i + 1) =~= (old(dst)@ + src@.take(i as int)).push(
                src@[i as int],
            ));
        }
        i = i + 1;
    }
    proof {
        assert(src@.take(src@.len() as int) =~= src@);
    }
}

/// Append the index values to `dst` as little-endian 16-bit values.
fn append_index_bytes(dst: &mut Vec<u8>, is: &Vec<u32>)
    requires
        fits_u16(is@),
    ensures
        final (dst)@ == old(dst)@ + le_bytes_of_indices(is@),
{
    let mut i: usize = 0;
    while i < is.len()
        invariant
            i <= is@.len(),
            fits_u16(is@),
            dst@ == old(dst)@ + le_bytes_of_indices(is@.take(i as int)),
        decreases is@.len() - i,
    {
        let v = is[i];
        dst.push((v % 256) as u8);
        dst.push(((v / 256) % 256) as u8);
        proof {
            assert(old(dst)@ + le_bytes_of_indices(is@.take(i + 1)) =~= (old(dst)@
                + le_bytes_of_indices(is@.take(i as int))).push(le_lo(is@[i as int] as int)).push(
                le_hi(is@[i as int] as int),
            )) by {
                assert(forall|j: int|
                    0 <= j < 2 * i ==> le_bytes_of_indices(is@.take(i + 1))[j]
                        == le_bytes_of_indices(is@.take(i as int))[j]);
            }
        }
        i = i + 1;
    }
    proof {
        assert(is@.take(is@.len() as int) =~= is@);
    }
}

/// Prefixes of the primitive list never hold more buffer bytes than the
/// whole list.
proof fn lemma_mesh_bytes_prefix(prims: Seq<GltfPrimitiveModel>, j: int)
    requires
        0 <= j <= prims.len(),
    ensures
        mesh_vertex_bytes(prims.take(j)).len() <= mesh_vertex_bytes(prims).len(),
        mesh_index_bytes(prims.take(j)).len() <= mesh_index_bytes(prims).len(),
    decreases prims.len() - j,
{
    if j == prims.len() {
        assert(prims.take(j) =~= prims);
    } else {
        lemma_mesh_bytes_prefix(prims, j + 1);
        assert(prims.take(j + 1).drop_last() =~= prims.take(j));
        assert(prims.take(j + 1).last() == prims[j]);
    }
}

/// Build every mesh's asset and its two buffers. Buffers come out two per
/// mesh, registered in the persisted buffer table under their position, so
/// an unchanged document reuses its buffer UUIDs. Fails exactly when some
/// accepted primitive names no material; the persisted associations survive
/// either way.
pub fn extract_meshes_to_import(
    state: &mut GltfImporterStateUnstable,
    meshes: &Vec<GltfMeshModel>,
    material_count: usize,
) -> (r: Result<(Vec<MeshToImport>, Vec<BufferToImport>), GltfImportError>)
    requires
        old(state).wf(),
        forall|k: int|
            0 <= k < meshes@.len() ==> (#[trigger] meshes@[k]).wf(material_count as int),
        forall|k: int|
            0 <= k < meshes@.len() ==> mesh_vertex_bytes(
                (#[trigger] meshes@[k]).primitives@,
            ).len() <= u32::MAX && mesh_index_bytes(meshes@[k].primitives@).len() <= u32::MAX,
    ensures
        final (state).wf(),
        table_extends(old(state).buffer_asset_uuids@, final (state).buffer_asset_uuids@),
        final (state).image_asset_uuids == old(state).image_asset_uuids,
        final (state).material_asset_uuids == old(state).material_asset_uuids,
        final (state).material_instance_asset_uuids == old(state).material_instance_asset_uuids,
        final (state).mesh_asset_uuids == old(state).mesh_asset_uuids,
        final (state).prefab_asset_uuids == old(state).prefab_asset_uuids,
        r is Ok <==> meshes_ok(meshes@),
        r matches Err(e) ==> e.error_message@ == "A mesh primitive did not have a material"@,
        r is Ok ==> r->Ok_0.0@.len() == meshes@.len() && r->Ok_0.1@.len() == 2 * meshes@.len(),
        r is Ok ==> forall|k: int|
            0 <= k < meshes@.len() ==> names_object(
                (#[trigger] r->Ok_0.0@[k]).id,
                meshes@[k].name,
                k as usize,
            ),
        r is Ok ==> forall|k: int|
            0 <= k < meshes@.len() ==> (#[trigger] r->Ok_0.0@[k]).asset.mesh_parts@
                == mesh_parts_of(meshes@[k].primitives@),
        r is Ok ==> forall|k: int|
            0 <= k < meshes@.len() ==> (#[trigger] r->Ok_0.0@[k]).asset.vertex_buffer == 2 * k
                && r->Ok_0.0@[k].asset.index_buffer == 2 * k + 1,
        r is Ok ==> forall|k: int|
            0 <= k < meshes@.len() ==> (#[trigger] r->Ok_0.1@[2 * k]).id == GltfObjectId::Index(
                (2 * k) as usize,
            ) && r->Ok_0.1@[2 * k].asset.data@ == mesh_vertex_bytes(meshes@[k].primitives@),
        r is Ok ==> forall|k: int|
            0 <= k < meshes@.len() ==> (#[trigger] r->Ok_0.1@[2 * k + 1]).id
                == GltfObjectId::Index((2 * k + 1) as usize) && r->Ok_0.1@[2 * k + 1].asset.data@
                == mesh_index_bytes(meshes@[k].primitives@),
{
    let mut meshes_to_import: Vec<MeshToImport> = Vec::new();
    let mut buffers_to_import: Vec<BufferToImport> = Vec::new();
    let mut k: usize = 0;
    while k < meshes.len()
        invariant
            k <= meshes@.len(),
            state.wf(),
            table_extends(old(state).buffer_asset_uuids@, state.buffer_asset_uuids@),
            state.image_asset_uuids == old(state).image_asset_uuids,
            state.material_asset_uuids == old(state).material_asset_uuids,
            state.material_instance_asset_uuids == old(state).material_instance_asset_uuids,
            state.mesh_asset_uuids == old(state).mesh_asset_uuids,
            state.prefab_asset_uuids == old(state).prefab_asset_uuids,
            forall|m: int|
                0 <= m < meshes@.len() ==> (#[trigger] meshes@[m]).wf(material_count as int),
            forall|m: int|
                0 <= m < meshes@.len() ==> mesh_vertex_bytes(
                    (#[trigger] meshes@[m]).primitives@,
                ).len() <= u32::MAX && mesh_index_bytes(meshes@[m].primitives@).len() <= u32::MAX,
            meshes_to_import@.len() == k,
            buffers_to_import@.len() == 2 * k,
            forall|m: int| 0 <= m < k ==> prims_have_materials((#[trigger] meshes@[m]).primitives@),
            forall|m: int|
                0 <= m < k ==> names_object(
                    (#[trigger] meshes_to_import@[m]).id,
                    meshes@[m].name,
                    m as usize,
                ),
            forall|m: int|
                0 <= m < k ==> (#[trigger] meshes_to_import@[m]).asset.mesh_parts@
                    == mesh_parts_of(meshes@[m].primitives@),
            forall|m: int|
                0 <= m < k ==> (#[trigger] meshes_to_import@[m]).asset.vertex_buffer == 2 * m
                    && meshes_to_import@[m].asset.index_buffer == 2 * m + 1,
            forall|m: int|
                0 <= m < k ==> (#[trigger] buffers_to_import@[2 * m]).id == GltfObjectId::Index(
                    (2 * m) as usize,
                ) && buffers_to_import@[2 * m].asset.data@ == mesh_vertex_bytes(
                    meshes@[m].primitives@,
                ),
            forall|m: int|
                0 <= m < k ==> (#[trigger] buffers_to_import@[2 * m + 1]).id
                    == GltfObjectId::Index((2 * m + 1) as usize) && buffers_to_import@[2 * m
                + 1].asset.data@ == mesh_index_bytes(meshes@[m].primitives@),
        decreases meshes@.len() - k,
    {
        let mesh = &meshes[k];
        let ghost prims = mesh.primitives@;
        let mut all_vertices: Vec<u8> = Vec::new();
        let mut all_indices: Vec<u8> = Vec::new();
        let mut mesh_parts: Vec<MeshPartData> = Vec::new();
        let mut j: usize = 0;
        proof {
            assert(prims.take(0) =~= Seq::<GltfPrimitiveModel>::empty());
        }
        while j < mesh.primitives.len()
            invariant
                j <= prims.len(),
                state.wf(),
                table_extends(old(state).buffer_asset_uuids@, state.buffer_asset_uuids@),
                state.image_asset_uuids == old(state).image_asset_uuids,
                state.material_asset_uuids == old(state).material_asset_uuids,
                state.material_instance_asset_uuids == old(state).material_instance_asset_uuids,
                state.mesh_asset_uuids == old(state).mesh_asset_uuids,
                state.prefab_asset_uuids == old(state).prefab_asset_uuids,
                prims == mesh.primitives@,
                meshes@[k as int].primitives@ == prims,
                0 <= k < meshes@.len(),
                (#[trigger] meshes@[k as int]).wf(material_count as int),
                mesh_vertex_bytes(prims).len() <= u32::MAX,
                mesh_index_bytes(prims).len() <= u32::MAX,
                all_vertices@ == mesh_vertex_bytes(prims.take(j as int)),
                all_indices@ == mesh_index_bytes(prims.take(j as int)),
                mesh_parts@ == mesh_parts_of(prims.take(j as int)),
                prims_have_materials(prims.take(j as int)),
            decreases prims.len() - j,
        {
            let p = &mesh.primitives[j];
            let ghost taken = prims.take(j as int);
            proof {
                assert(prims.take(j + 1).drop_last() =~= taken);
                assert(prims.take(j + 1).last() == prims[j as int]);
                lemma_mesh_bytes_prefix(prims, j + 1);
            }
            if let (Some(indices), Some(vertices)) = (&p.indices, &p.vertices) {
                let part_indices = convert_to_u16_indices(indices);
                if part_indices.is_some() {
                    let material_index = match p.material {
                        Some(mi) => mi,
                        None => {
                            proof {
                                assert(prim_accepted(prims[j as int]));
                                assert(!prims_have_materials(prims));
                                assert(!meshes_ok(meshes@));
                            }
                            return Err(
                                GltfImportError::new("A mesh primitive did not have a material"),
                            );
                        }
                    };
                    let vertex_offset = all_vertices.len();
                    let indices_offset = all_indices.len();
                    append_bytes(&mut all_vertices, &vertices.bytes);
                    append_index_bytes(&mut all_indices, indices);
                    let vertex_size = all_vertices.len() - vertex_offset;
                    let indices_size = all_indices.len() - indices_offset;
                    let part = MeshPartData {
                        material: material_index,
                        material_instance: material_index,
                        vertex_buffer_offset_in_bytes: vertex_offset as u32,
                        vertex_buffer_size_in_bytes: vertex_size as u32,
                        index_buffer_offset_in_bytes: indices_offset as u32,
                        index_buffer_size_in_bytes: indices_size as u32,
                    };
                    mesh_parts.push(part);
                    proof {
                        assert(mesh_parts@ =~= mesh_parts_of(prims.take(j + 1)));
                    }
                } else {
                    proof {
                        assert(!prim_accepted(prims[j as int]));
                        assert(all_vertices@ =~= mesh_vertex_bytes(prims.take(j + 1)));
                        assert(all_indices@ =~= mesh_index_bytes(prims.take(j + 1)));
                        assert(mesh_parts@ =~= mesh_parts_of(prims.take(j + 1)));
                    }
                }
            } else {
                proof {
                    assert(!prim_accepted(prims[j as int]));
                    assert(all_vertices@ =~= mesh_vertex_bytes(prims.take(j + 1)));
                    assert(all_indices@ =~= mesh_index_bytes(prims.take(j + 1)));
                    assert(mesh_parts@ =~= mesh_parts_of(prims.take(j + 1)));
                }
            }
            j = j + 1;
        }
        proof {
            assert(prims.take(prims.len() as int) =~= prims);
        }
        let vertex_buffer_index = buffers_to_import.len();
        let _vertex_buffer_uuid = state.buffer_asset_uuids.uuid_for_object(
            GltfObjectId::Index(vertex_buffer_index),
        );
        buffers_to_import.push(
            BufferToImport {
                id: GltfObjectId::Index(vertex_buffer_index),
                asset: BufferAssetData { data: all_vertices },
            },
        );
        let index_buffer_index = buffers_to_import.len();
        let _index_buffer_uuid = state.buffer_asset_uuids.uuid_for_object(
            GltfObjectId::Index(index_buffer_index),
        );
        buffers_to_import.push(
            BufferToImport {
                id: GltfObjectId::Index(index_buffer_index),
                asset: BufferAssetData { data: all_indices },
            },
        );
        let id = object_id_for(&mesh.name, k);
        meshes_to_import.push(
            MeshToImport {
                id,
                asset: MeshAssetDataModel {
                    mesh_parts,
                    vertex_buffer: vertex_buffer_index,
                    index_buffer: index_buffer_index,
                },
            },
        );
        k = k + 1;
    }
    Ok((meshes_to_import, buffers_to_import))
}

} // verus!
