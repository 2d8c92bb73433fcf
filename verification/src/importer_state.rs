//! Persisted state of the GLTF importer, in its two forms.
//!
//! While a document is processed the importer works on the unstable form,
//! whose per-class tables grow as objects are assigned UUIDs. What is written
//! back to disk is the stable form: the same associations with every table
//! sorted by object identity, so that re-importing an unchanged document
//! serializes byte-identical state (deterministic output).

use vstd::prelude::*;
use vstd::multiset::Multiset;

use crate::object_id::GltfObjectId;
use crate::object_id::id_eq;
use crate::object_id::id_le;
use crate::object_id::lemma_id_eq_symmetric;
use crate::object_id::lemma_id_le_antisymmetric;
use crate::object_id::lemma_id_le_total;
use crate::object_id::lemma_id_le_transitive;
use crate::uuid_table::UuidEntry;
use crate::uuid_table::UuidTable;
use crate::uuid_table::duplicate_entries;
use crate::uuid_table::table_contains;
use crate::uuid_table::table_lookup;
use crate::uuid_table::unique_ids;

verus! {

/// Entries stand in non-decreasing identity order.
pub open spec fn sorted_ids(s: Seq<UuidEntry>) -> bool {
    forall|i: int, j: int| 0 <= i < j < s.len() ==> id_le(s[i].0, s[j].0)
}

/// Inserting an entry anywhere in a sequence adds exactly it to the contents.
pub proof fn lemma_insert_to_multiset(s: Seq<UuidEntry>, i: int, e: UuidEntry)
    requires
        0 <= i <= s.len(),
    ensures
        s.insert(i, e).to_multiset() == s.to_multiset().insert(e),
{
    broadcast use vstd::seq_lib::group_to_multiset_ensures;
    broadcast use vstd::multiset::group_multiset_axioms;

    let t = s.insert(i, e);
    s.insert_ensures(i, e);
    t.remove_ensures(i);
    assert(t.remove(i) =~= s);
    assert(t[i] == e);
    assert(t.remove(i).to_multiset() == t.to_multiset().remove(e));
    assert(t.contains(e));
    assert(t.to_multiset().count(e) > 0);
    assert(t.to_multiset() =~= s.to_multiset().insert(e));
}

/// Law: the persisted form of a table is determined by its contents alone.
/// Two identity-sorted tables with unique identities that hold the same
/// entries are equal. So whatever order the working state visited the
/// document's objects in, sorting yields the same persisted table:
/// re-importing an unchanged document writes identical state.
pub proof fn lemma_sorted_table_deterministic(s: Seq<UuidEntry>, t: Seq<UuidEntry>)
    requires
        sorted_ids(s),
        unique_ids(s),
        sorted_ids(t),
        unique_ids(t),
        s.to_multiset() == t.to_multiset(),
    ensures
        s == t,
    decreases s.len(),
{
    broadcast use vstd::seq_lib::group_to_multiset_ensures;
    broadcast use vstd::multiset::group_multiset_axioms;

    if s.len() == 0 {
        assert(t.to_multiset().len() == 0);
        assert(s =~= t);
    } else {
        assert(s.contains(s[0]));
        assert(t.to_multiset().count(s[0]) > 0);
        assert(t.contains(s[0]));
        let k = choose|k: int| 0 <= k < t.len() && t[k] == s[0];
        assert(t.contains(t[0]));
        assert(s.to_multiset().count(t[0]) > 0);
        assert(s.contains(t[0]));
        let m = choose|m: int| 0 <= m < s.len() && s[m] == t[0];
        if k == 0 {
            assert(t[0] == s[0]);
        } else if m == 0 {
            assert(t[0] == s[0]);
        } else {
            assert(id_le(t[0].0, t[k].0));
            assert(id_le(s[0].0, s[m].0));
            lemma_id_le_antisymmetric(s[0].0, t[0].0);
            lemma_id_eq_symmetric(s[0].0, t[0].0);
            assert(!id_eq(t[0].0, t[k].0));
            assert(false);
        }
        assert(s.remove(0) =~= s.drop_first());
        assert(t.remove(0) =~= t.drop_first());
        assert(s.drop_first().to_multiset() == s.to_multiset().remove(s[0]));
        assert(t.drop_first().to_multiset() == t.to_multiset().remove(t[0]));
        assert forall|i: int, j: int|
            0 <= i < j < s.drop_first().len() implies id_le(s.drop_first()[i].0, s.drop_first()[j].0)
                && !id_eq(s.drop_first()[i].0, s.drop_first()[j].0) by {
            assert(s.drop_first()[i] == s[i + 1]);
            assert(s.drop_first()[j] == s[j + 1]);
        }
        assert forall|i: int, j: int|
            0 <= i < j < t.drop_first().len() implies id_le(t.drop_first()[i].0, t.drop_first()[j].0)
                && !id_eq(t.drop_first()[i].0, t.drop_first()[j].0) by {
            assert(t.drop_first()[i] == t[i + 1]);
            assert(t.drop_first()[j] == t[j + 1]);
        }
        lemma_sorted_table_deterministic(s.drop_first(), t.drop_first());
        assert forall|i: int| 0 <= i < s.len() implies s[i] == t[i] by {
            if i > 0 {
                assert(s.drop_first()[i - 1] == t.drop_first()[i - 1]);
            }
        }
        assert(s.len() == t.len()) by {
            assert(s.to_multiset().len() == t.to_multiset().len());
        }
        assert(s =~= t);
    }
}

/// Looking an identity up in a table that an entry with a new identity was
/// inserted into, anywhere: the entry answers for its own identity, every
/// other lookup is unchanged.
pub proof fn lemma_lookup_insert(s: Seq<UuidEntry>, idx: int, e: UuidEntry, id: GltfObjectId)
    requires
        0 <= idx <= s.len(),
        !table_contains(s, e.0),
    ensures
        table_lookup(s.insert(idx, e), id) == (if id_eq(e.0, id) {
            Some(e.1)
        } else {
            table_lookup(s, id)
        }),
    decreases s.len(),
{
    let t = s.insert(idx, e);
    s.insert_ensures(idx, e);
    if idx == 0 {
        assert(t[0] == e);
        assert(t.drop_first() =~= s);
        if !id_eq(e.0, id) {
            assert(table_lookup(t, id) == table_lookup(s, id));
        }
    } else {
        assert(t[0] == s[0]);
        assert(t.drop_first() =~= s.drop_first().insert(idx - 1, e));
        assert forall|i: int|
            0 <= i < s.drop_first().len() implies !id_eq(
            (#[trigger] s.drop_first()[i]).0,
            e.0,
        ) by {
            assert(s.drop_first()[i] == s[i + 1]);
        }
        assert(!table_contains(s.drop_first(), e.0));
        lemma_lookup_insert(s.drop_first(), idx - 1, e, id);
        if id_eq(s[0].0, id) && id_eq(e.0, id) {
            crate::object_id::lemma_id_eq_symmetric(e.0, id);
            crate::object_id::lemma_id_eq_transitive(s[0].0, id, e.0);
            assert(table_contains(s, e.0));
        }
    }
}

/// Place one entry into a table kept sorted by identity. The contents grow by
/// exactly the entry; order, and uniqueness when the identity is new, are
/// preserved, and a new identity shadows no existing lookup.
pub fn insert_sorted(v: &mut Vec<UuidEntry>, e: UuidEntry)
    requires
        sorted_ids(old(v)@),
    ensures
        final(v)@.to_multiset() == old(v)@.to_multiset().insert(e),
        final(v)@.len() == old(v)@.len() + 1,
        sorted_ids(final(v)@),
        unique_ids(old(v)@) && !table_contains(old(v)@, e.0) ==> unique_ids(final(v)@),
        !table_contains(old(v)@, e.0) ==> forall|id: GltfObjectId|
            #![auto] table_lookup(final(v)@, id) == (if id_eq(e.0, id) {
                Some(e.1)
            } else {
                table_lookup(old(v)@, id)
            }),
        forall|x: GltfObjectId|
            #[trigger] table_contains(final(v)@, x) <==> table_contains(old(v)@, x) || id_eq(
                e.0,
                x,
            ),
{
    let mut idx: usize = 0;
    while idx < v.len() && v[idx].0.le_id(&e.0)
        invariant
            idx <= v@.len(),
            *v == *old(v),
            sorted_ids(v@),
            forall|j: int| 0 <= j < idx ==> id_le(#[trigger] v@[j].0, e.0),
        decreases v@.len() - idx,
    {
        idx = idx + 1;
    }
    proof {
        let s = v@;
        let t = s.insert(idx as int, e);
        s.insert_ensures(idx as int, e);
        lemma_insert_to_multiset(s, idx as int, e);
        if idx < s.len() {
            lemma_id_le_total(s[idx as int].0, e.0);
        }
        assert forall|i: int, j: int| 0 <= i < j < t.len() implies id_le(t[i].0, t[j].0) by {
            if i < idx && j < idx {
                assert(t[i] == s[i]);
                assert(t[j] == s[j]);
            } else if i < idx && j == idx {
                assert(t[i] == s[i]);
                assert(t[j] == e);
            } else if i < idx && j > idx {
                assert(t[i] == s[i]);
                assert(t[j] == s[j - 1]);
            } else if i == idx && j > idx {
                assert(t[i] == e);
                assert(t[j] == s[j - 1]);
                assert(id_le(e.0, s[idx as int].0));
                if j - 1 > idx {
                    assert(id_le(s[idx as int].0, s[j - 1].0));
                    lemma_id_le_transitive(e.0, s[idx as int].0, s[j - 1].0);
                }
            } else {
                assert(i > idx && j > idx);
                assert(t[i] == s[i - 1]);
                assert(t[j] == s[j - 1]);
            }
        }
        if unique_ids(s) && !table_contains(s, e.0) {
            assert forall|i: int, j: int| 0 <= i < j < t.len() implies !id_eq(t[i].0, t[j].0) by {
                if i != idx && j != idx {
                    let si: int = if i < idx { i } else { i - 1 };
                    let sj: int = if j < idx { j } else { j - 1 };
                    assert(t[i] == s[si]);
                    assert(t[j] == s[sj]);
                } else if i == idx {
                    assert(t[i] == e);
                    assert(t[j] == s[j - 1]);
                    assert(!id_eq(s[j - 1].0, e.0));
                    lemma_id_eq_symmetric(e.0, s[j - 1].0);
                } else {
                    assert(t[i] == s[i]);
                    assert(t[j] == e);
                    assert(!id_eq(s[i].0, e.0));
                }
            }
        }
        if !table_contains(s, e.0) {
            assert forall|id: GltfObjectId| #![auto]
                table_lookup(t, id) == (if id_eq(e.0, id) {
                    Some(e.1)
                } else {
                    table_lookup(s, id)
                }) by {
                lemma_lookup_insert(s, idx as int, e, id);
            }
        }
        assert forall|x: GltfObjectId| #[trigger]
            table_contains(t, x) <==> table_contains(s, x) || id_eq(e.0, x) by {
            if table_contains(t, x) {
                let i = choose|i: int| 0 <= i < t.len() && id_eq(t[i].0, x);
                if i < idx {
                    assert(t[i] == s[i]);
                    assert(table_contains(s, x));
                } else if i == idx {
                    assert(t[i] == e);
                } else {
                    assert(t[i] == s[i - 1]);
                    assert(table_contains(s, x));
                }
            }
            if table_contains(s, x) {
                let i = choose|i: int| 0 <= i < s.len() && id_eq(s[i].0, x);
                if i < idx {
                    assert(t[i] == s[i]);
                    assert(table_contains(t, x));
                } else {
                    assert(t[i + 1] == s[i]);
                    assert(table_contains(t, x));
                }
            }
            if id_eq(e.0, x) {
                assert(t[idx as int] == e);
                assert(table_contains(t, x));
            }
        }
    }
    v.insert(idx, e);
}

/// Sort a table's entries by object identity. The associations themselves are
/// unchanged: the result holds exactly the entries of the input.
pub fn sort_entries(v: Vec<UuidEntry>) -> (r: Vec<UuidEntry>)
    requires
        unique_ids(v@),
    ensures
        r@.to_multiset() == v@.to_multiset(),
        r@.len() == v@.len(),
        sorted_ids(r@),
        unique_ids(r@),
        forall|id: GltfObjectId| #![auto] table_lookup(r@, id) == table_lookup(v@, id),
{
    let ghost orig: Seq<UuidEntry> = v@;
    let mut src = v;
    let mut out: Vec<UuidEntry> = Vec::new();
    proof {
        broadcast use vstd::multiset::group_multiset_axioms;

        assert(out@.to_multiset() =~= Multiset::<UuidEntry>::empty()) by {
            broadcast use vstd::seq_lib::group_to_multiset_ensures;

            assert(out@.to_multiset().len() == 0);
        }
        assert(out@.to_multiset().add(src@.to_multiset()) =~= orig.to_multiset());
        assert(src@ =~= orig.take(src@.len() as int));
        assert(orig.skip(src@.len() as int).len() == 0);
    }
    while src.len() > 0
        invariant
            unique_ids(src@),
            unique_ids(out@),
            sorted_ids(out@),
            forall|k: int| 0 <= k < src@.len() ==> !table_contains(out@, #[trigger] src@[k].0),
            out@.to_multiset().add(src@.to_multiset()) == orig.to_multiset(),
            out@.len() + src@.len() == orig.len(),
            src@ == orig.take(src@.len() as int),
            forall|id: GltfObjectId|
                #![auto]
                table_lookup(out@, id) == table_lookup(orig.skip(src@.len() as int), id),
        decreases src@.len(),
    {
        let ghost src0 = src@;
        let ghost out0 = out@;
        let e = src.pop().unwrap();
        proof {
            broadcast use vstd::seq_lib::group_to_multiset_ensures;
            broadcast use vstd::multiset::group_multiset_axioms;

            let last: int = src0.len() - 1;
            assert(src0.remove(last) =~= src@);
            assert(src@.to_multiset() == src0.to_multiset().remove(e));
            assert(src0.contains(e)) by {
                assert(src0[last] == e);
            }
            assert(src0.to_multiset().count(e) > 0);
            assert(!table_contains(out0, e.0)) by {
                assert(src0[last] == e);
            }
        }
        insert_sorted(&mut out, e);
        proof {
            broadcast use vstd::multiset::group_multiset_axioms;

            let src0m = src0.to_multiset();
            assert(out@.to_multiset().add(src@.to_multiset()) =~= orig.to_multiset()) by {
                assert(out@.to_multiset() == out0.to_multiset().insert(e));
                assert(src@.to_multiset() == src0m.remove(e));
                assert(src0m.count(e) > 0);
            }
            assert forall|k: int|
                0 <= k < src@.len() implies !table_contains(out@, #[trigger] src@[k].0) by {
                assert(src@[k] == src0[k]);
                assert(!table_contains(out0, src0[k].0));
                assert(!id_eq(src0[k].0, e.0)) by {
                    assert(src0[src0.len() - 1] == e);
                }
                lemma_id_eq_symmetric(e.0, src0[k].0);
            }
            assert forall|i: int, j: int|
                0 <= i < j < src@.len() implies !id_eq(src@[i].0, src@[j].0) by {
                assert(src@[i] == src0[i]);
                assert(src@[j] == src0[j]);
            }
            let n: int = src0.len() as int;
            assert(src@ =~= orig.take(n - 1));
            assert(e == orig[n - 1]);
            let cons_new = orig.skip(n - 1);
            assert(cons_new[0] == orig[n - 1]);
            assert(cons_new.drop_first() =~= orig.skip(n));
            assert forall|id: GltfObjectId| #![auto]
                table_lookup(out@, id) == table_lookup(cons_new, id) by {
                if id_eq(e.0, id) {
                    assert(table_lookup(out@, id) == Some(e.1));
                    assert(id_eq(cons_new[0].0, id));
                    assert(table_lookup(cons_new, id) == Some(cons_new[0].1));
                } else {
                    assert(table_lookup(out@, id) == table_lookup(out0, id));
                    assert(table_lookup(out0, id) == table_lookup(orig.skip(n), id));
                    assert(!id_eq(cons_new[0].0, id));
                    assert(table_lookup(cons_new, id) == table_lookup(cons_new.drop_first(), id));
                }
            }
        }
    }
    proof {
        broadcast use vstd::multiset::group_multiset_axioms;
        broadcast use vstd::seq_lib::group_to_multiset_ensures;

        assert(src@.to_multiset().len() == 0);
        assert(out@.to_multiset() =~= orig.to_multiset());
        assert(out@.to_multiset().len() == orig.to_multiset().len());
        assert(orig.skip(0) =~= orig);
    }
    out
}

/// UUID tables keyed by object identity, in lookup form: one per asset class,
/// grown freely as the importer encounters objects.
pub struct GltfImporterStateUnstable {
    pub buffer_asset_uuids: UuidTable,
    pub image_asset_uuids: UuidTable,
    pub material_asset_uuids: UuidTable,
    pub material_instance_asset_uuids: UuidTable,
    pub mesh_asset_uuids: UuidTable,
    pub prefab_asset_uuids: UuidTable,
}

/// The same tables in the form that is persisted: each sorted by object
/// identity for deterministic output.
pub struct GltfImporterStateStable {
    pub buffer_asset_uuids: Vec<UuidEntry>,
    pub image_asset_uuids: Vec<UuidEntry>,
    pub material_asset_uuids: Vec<UuidEntry>,
    pub material_instance_asset_uuids: Vec<UuidEntry>,
    pub mesh_asset_uuids: Vec<UuidEntry>,
    pub prefab_asset_uuids: Vec<UuidEntry>,
}

impl GltfImporterStateUnstable {
    /// Every table keeps at most one UUID per identity.
    pub open spec fn wf(&self) -> bool {
        &&& self.buffer_asset_uuids.wf()
        &&& self.image_asset_uuids.wf()
        &&& self.material_asset_uuids.wf()
        &&& self.material_instance_asset_uuids.wf()
        &&& self.mesh_asset_uuids.wf()
        &&& self.prefab_asset_uuids.wf()
    }

    /// Working state with no assignments yet: what a first import starts from.
    pub fn new() -> (r: GltfImporterStateUnstable)
        ensures
            r.wf(),
            r.buffer_asset_uuids@.len() == 0,
            r.image_asset_uuids@.len() == 0,
            r.material_asset_uuids@.len() == 0,
            r.material_instance_asset_uuids@.len() == 0,
            r.mesh_asset_uuids@.len() == 0,
            r.prefab_asset_uuids@.len() == 0,
    {
        GltfImporterStateUnstable {
            buffer_asset_uuids: UuidTable::new(),
            image_asset_uuids: UuidTable::new(),
            material_asset_uuids: UuidTable::new(),
            material_instance_asset_uuids: UuidTable::new(),
            mesh_asset_uuids: UuidTable::new(),
            prefab_asset_uuids: UuidTable::new(),
        }
    }

    /// Lookup form of a persisted state: the same associations, copied so
    /// the persisted state stays untouched while an import works.
    pub fn from_stable(stable: &GltfImporterStateStable) -> (r: GltfImporterStateUnstable)
        ensures
            forall|id: GltfObjectId|
                #![auto]
                table_lookup(r.buffer_asset_uuids@, id) == table_lookup(
                    stable.buffer_asset_uuids@,
                    id,
                ),
            forall|id: GltfObjectId|
                #![auto]
                table_lookup(r.image_asset_uuids@, id) == table_lookup(
                    stable.image_asset_uuids@,
                    id,
                ),
            forall|id: GltfObjectId|
                #![auto]
                table_lookup(r.material_asset_uuids@, id) == table_lookup(
                    stable.material_asset_uuids@,
                    id,
                ),
            forall|id: GltfObjectId|
                #![auto]
                table_lookup(r.material_instance_asset_uuids@, id) == table_lookup(
                    stable.material_instance_asset_uuids@,
                    id,
                ),
            forall|id: GltfObjectId|
                #![auto]
                table_lookup(r.mesh_asset_uuids@, id) == table_lookup(stable.mesh_asset_uuids@, id),
            forall|id: GltfObjectId|
                #![auto]
                table_lookup(r.prefab_asset_uuids@, id) == table_lookup(
                    stable.prefab_asset_uuids@,
                    id,
                ),
            stable.wf() ==> r.wf(),
    {
        GltfImporterStateUnstable {
            buffer_asset_uuids: UuidTable { entries: duplicate_entries(&stable.buffer_asset_uuids) },
            image_asset_uuids: UuidTable { entries: duplicate_entries(&stable.image_asset_uuids) },
            material_asset_uuids: UuidTable {
                entries: duplicate_entries(&stable.material_asset_uuids),
            },
            material_instance_asset_uuids: UuidTable {
                entries: duplicate_entries(&stable.material_instance_asset_uuids),
            },
            mesh_asset_uuids: UuidTable { entries: duplicate_entries(&stable.mesh_asset_uuids) },
            prefab_asset_uuids: UuidTable {
                entries: duplicate_entries(&stable.prefab_asset_uuids),
            },
        }
    }
}

impl GltfImporterStateStable {
    /// Every table is sorted by identity and keeps at most one UUID per
    /// identity: the shape in which state is persisted.
    pub open spec fn wf(&self) -> bool {
        &&& sorted_ids(self.buffer_asset_uuids@) && unique_ids(self.buffer_asset_uuids@)
        &&& sorted_ids(self.image_asset_uuids@) && unique_ids(self.image_asset_uuids@)
        &&& sorted_ids(self.material_asset_uuids@) && unique_ids(self.material_asset_uuids@)
        &&& sorted_ids(self.material_instance_asset_uuids@) && unique_ids(
            self.material_instance_asset_uuids@,
        )
        &&& sorted_ids(self.mesh_asset_uuids@) && unique_ids(self.mesh_asset_uuids@)
        &&& sorted_ids(self.prefab_asset_uuids@) && unique_ids(self.prefab_asset_uuids@)
    }

    /// Persisted state with no assignments yet.
    pub fn new() -> (r: GltfImporterStateStable)
        ensures
            r.wf(),
            r.buffer_asset_uuids@.len() == 0,
            r.image_asset_uuids@.len() == 0,
            r.material_asset_uuids@.len() == 0,
            r.material_instance_asset_uuids@.len() == 0,
            r.mesh_asset_uuids@.len() == 0,
            r.prefab_asset_uuids@.len() == 0,
    {
        GltfImporterStateStable {
            buffer_asset_uuids: Vec::new(),
            image_asset_uuids: Vec::new(),
            material_asset_uuids: Vec::new(),
            material_instance_asset_uuids: Vec::new(),
            mesh_asset_uuids: Vec::new(),
            prefab_asset_uuids: Vec::new(),
        }
    }

    /// Persisted form of a working state: each table sorted by identity, the
    /// associations themselves untouched.
    pub fn from_unstable(unstable: GltfImporterStateUnstable) -> (r: GltfImporterStateStable)
        requires
            unstable.wf(),
        ensures
            r.wf(),
            r.buffer_asset_uuids@.to_multiset() == unstable.buffer_asset_uuids@.to_multiset(),
            r.image_asset_uuids@.to_multiset() == unstable.image_asset_uuids@.to_multiset(),
            r.material_asset_uuids@.to_multiset() == unstable.material_asset_uuids@.to_multiset(),
            r.material_instance_asset_uuids@.to_multiset()
                == unstable.material_instance_asset_uuids@.to_multiset(),
            r.mesh_asset_uuids@.to_multiset() == unstable.mesh_asset_uuids@.to_multiset(),
            r.prefab_asset_uuids@.to_multiset() == unstable.prefab_asset_uuids@.to_multiset(),
            forall|id: GltfObjectId|
                #![auto]
                table_lookup(r.buffer_asset_uuids@, id) == table_lookup(
                    unstable.buffer_asset_uuids@,
                    id,
                ),
            forall|id: GltfObjectId|
                #![auto]
                table_lookup(r.image_asset_uuids@, id) == table_lookup(
                    unstable.image_asset_uuids@,
                    id,
                ),
            forall|id: GltfObjectId|
                #![auto]
                table_lookup(r.material_asset_uuids@, id) == table_lookup(
                    unstable.material_asset_uuids@,
                    id,
                ),
            forall|id: GltfObjectId|
                #![auto]
                table_lookup(r.material_instance_asset_uuids@, id) == table_lookup(
                    unstable.material_instance_asset_uuids@,
                    id,
                ),
            forall|id: GltfObjectId|
                #![auto]
                table_lookup(r.mesh_asset_uuids@, id) == table_lookup(
                    unstable.mesh_asset_uuids@,
                    id,
                ),
            forall|id: GltfObjectId|
                #![auto]
                table_lookup(r.prefab_asset_uuids@, id) == table_lookup(
                    unstable.prefab_asset_uuids@,
                    id,
                ),
    {
        GltfImporterStateStable {
            buffer_asset_uuids: sort_entries(unstable.buffer_asset_uuids.entries),
            image_asset_uuids: sort_entries(unstable.image_asset_uuids.entries),
            material_asset_uuids: sort_entries(unstable.material_asset_uuids.entries),
            material_instance_asset_uuids: sort_entries(
                unstable.material_instance_asset_uuids.entries,
            ),
            mesh_asset_uuids: sort_entries(unstable.mesh_asset_uuids.entries),
            prefab_asset_uuids: sort_entries(unstable.prefab_asset_uuids.entries),
        }
    }
}

} // verus!
