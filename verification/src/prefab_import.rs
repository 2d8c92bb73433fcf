//! Extraction of the scenes a document carries, as prefabs.
//!
//! Building a scene's world produces a prefab that arrives with a freshly
//! generated identity. The importer keys the scene by its name (or index)
//! in the persisted table: a scene imported before keeps the UUID recorded
//! then, a new scene registers its generated one. Two scenes with the same
//! identity leave with the same UUID.

use vstd::prelude::*;

use crate::asset_uuid::AssetUuid;
use crate::gltf_model::GltfSceneModel;
use crate::object_id::GltfObjectId;
use crate::object_id::id_eq;
use crate::object_id::lemma_id_eq_symmetric;
use crate::object_id::lemma_id_eq_transitive;
use crate::object_id::names_object;
use crate::object_id::object_id_for;
use crate::uuid_table::UuidTable;
use crate::uuid_table::lemma_lookup_id_view;
use crate::uuid_table::lemma_lookup_push;
use crate::uuid_table::table_extends;
use crate::uuid_table::table_lookup;

verus! {

/// One scene together with the identity its UUID is assigned under and the
/// UUID the prefab is registered with.
pub struct PrefabToImport {
    pub id: GltfObjectId,
    pub prefab_id: AssetUuid,
}

/// Assign every scene its prefab UUID: the persisted one where the scene's
/// identity is known, else the prefab's freshly generated one, which is
/// recorded for later imports. No recorded association is lost or changed.
#[verifier::rlimit(100)]
pub fn extract_prefabs_to_import(
    scenes: &Vec<GltfSceneModel>,
    prefabs_uuids: &mut UuidTable,
) -> (r: Vec<PrefabToImport>)
    ensures
        old(prefabs_uuids).wf() ==> final (prefabs_uuids).wf(),
        table_extends(old(prefabs_uuids)@, final (prefabs_uuids)@),
        r@.len() == scenes@.len(),
        forall|k: int|
            0 <= k < scenes@.len() ==> names_object(
                (#[trigger] r@[k]).id,
                scenes@[k].name,
                k as usize,
            ),
        forall|k: int|
            0 <= k < scenes@.len() ==> table_lookup(final (prefabs_uuids)@, (#[trigger] r@[k]).id)
                == Some(r@[k].prefab_id),
        forall|k: int|
            0 <= k < scenes@.len() && table_lookup(
                old(prefabs_uuids)@,
                (#[trigger] r@[k]).id,
            ) is Some ==> Some(r@[k].prefab_id) == table_lookup(old(prefabs_uuids)@, r@[k].id),
        forall|k: int|
            0 <= k < scenes@.len() && table_lookup(
                old(prefabs_uuids)@,
                (#[trigger] r@[k]).id,
            ) is None && (forall|m: int| 0 <= m < k ==> !id_eq((#[trigger] r@[m]).id, r@[k].id))
                ==> r@[k].prefab_id == scenes@[k].new_prefab_id,
        forall|m: int, k: int|
            0 <= m < k < scenes@.len() && id_eq((#[trigger] r@[m]).id, (#[trigger] r@[k]).id)
                ==> r@[k].prefab_id == r@[m].prefab_id,
{
    let mut r: Vec<PrefabToImport> = Vec::new();
    let mut k: usize = 0;
    while k < scenes.len()
        invariant
            k <= scenes@.len(),
            r@.len() == k,
            old(prefabs_uuids).wf() ==> prefabs_uuids.wf(),
            table_extends(old(prefabs_uuids)@, prefabs_uuids@),
            forall|m: int|
                0 <= m < k ==> names_object((#[trigger] r@[m]).id, scenes@[m].name, m as usize),
            forall|m: int|
                0 <= m < k ==> table_lookup(prefabs_uuids@, (#[trigger] r@[m]).id) == Some(
                    r@[m].prefab_id,
                ),
            forall|id: GltfObjectId|
                #![auto]
                table_lookup(prefabs_uuids@, id) is Some ==> table_lookup(
                    old(prefabs_uuids)@,
                    id,
                ) is Some || exists|m: int| 0 <= m < k && id_eq((#[trigger] r@[m]).id, id),
            forall|m: int|
                0 <= m < k && table_lookup(old(prefabs_uuids)@, (#[trigger] r@[m]).id) is Some
                    ==> Some(r@[m].prefab_id) == table_lookup(old(prefabs_uuids)@, r@[m].id),
            forall|m: int|
                0 <= m < k && table_lookup(old(prefabs_uuids)@, (#[trigger] r@[m]).id) is None && (
                forall|j: int| 0 <= j < m ==> !id_eq((#[trigger] r@[j]).id, r@[m].id))
                    ==> r@[m].prefab_id == scenes@[m].new_prefab_id,
            forall|j: int, m: int|
                0 <= j < m < k && id_eq((#[trigger] r@[j]).id, (#[trigger] r@[m]).id)
                    ==> r@[m].prefab_id == r@[j].prefab_id,
        decreases scenes@.len() - k,
    {
        let scene = &scenes[k];
        let id = object_id_for(&scene.name, k);
        let table_id = object_id_for(&scene.name, k);
        proof {
            assert(id_eq(id, table_id));
            lemma_lookup_id_view(prefabs_uuids@, id, table_id);
            lemma_lookup_id_view(old(prefabs_uuids)@, id, table_id);
        }
        let ghost cur0 = prefabs_uuids@;
        let ghost r0 = r@;
        let prefab_id = prefabs_uuids.assign_or_get(table_id, scene.new_prefab_id);
        r.push(PrefabToImport { id, prefab_id });
        proof {
            lemma_lookup_id_view(prefabs_uuids@, id, table_id);
            assert(r@[k as int].id == id);
            assert(forall|m: int| 0 <= m < k ==> r@[m] == r0[m]);
            if table_lookup(cur0, table_id) is None {
                assert(prefabs_uuids@ == cur0.push((table_id, prefab_id)));
                assert forall|x: GltfObjectId|
                    #![auto]
                    table_lookup(prefabs_uuids@, x) is Some implies table_lookup(
                    old(prefabs_uuids)@,
                    x,
                ) is Some || exists|m: int|
                    0 <= m < k + 1 && id_eq((#[trigger] r@[m]).id, x) by {
                    lemma_lookup_push(cur0, (table_id, prefab_id), x);
                    if table_lookup(cur0, x) is Some {
                        if table_lookup(old(prefabs_uuids)@, x) is None {
                            let m = choose|m: int|
                                0 <= m < k && id_eq((#[trigger] r0[m]).id, x);
                            assert(id_eq(r@[m].id, x));
                        }
                    } else {
                        assert(id_eq(table_id, x));
                        lemma_id_eq_symmetric(id, table_id);
                        lemma_id_eq_transitive(id, table_id, x);
                        assert(id_eq(r@[k as int].id, x));
                    }
                }
            }
            if table_lookup(old(prefabs_uuids)@, id) is None && (forall|j: int|
                0 <= j < k ==> !id_eq((#[trigger] r@[j]).id, id)) {
                // No earlier scene registered this identity, so the table
                // still missed it and the generated identity is kept.
                if table_lookup(cur0, id) is Some {
                    let m = choose|m: int| 0 <= m < k && id_eq((#[trigger] r0[m]).id, id);
                    assert(id_eq(r@[m].id, id));
                    assert(false);
                }
                assert(prefab_id == scene.new_prefab_id);
            }
            if table_lookup(cur0, id) is Some {
                assert forall|j: int|
                    0 <= j < k && id_eq((#[trigger] r@[j]).id, id) implies prefab_id
                    == r@[j].prefab_id by {
                    lemma_lookup_id_view(cur0, r@[j].id, id);
                }
            } else {
                assert forall|j: int| 0 <= j < k implies !id_eq((#[trigger] r@[j]).id, id) by {
                    if id_eq(r@[j].id, id) {
                        lemma_lookup_id_view(cur0, r@[j].id, id);
                    }
                }
            }
        }
        k = k + 1;
    }
    r
}

} // verus!
