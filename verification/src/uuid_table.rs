//! Persisted name/index-to-UUID table of the GLTF importer.
//!
//! The importer keeps, per asset class, a table from object identity to the
//! UUID assigned when the object was first imported. On re-import, an object
//! whose identity is already in the table keeps its UUID; a new identity gets
//! a fresh one and is appended. This is what keeps asset references stable
//! across incremental rebuilds. The table is an association list with unique
//! keys (the role a hash map plays in the unverified original).

use vstd::prelude::*;

use crate::asset_uuid::AssetUuid;
use crate::asset_uuid::fresh_uuid;
use crate::object_id::GltfObjectId;
use crate::object_id::clone_bytes;
use crate::object_id::id_eq;

verus! {

/// One persisted association: an object identity and its assigned UUID.
pub type UuidEntry = (GltfObjectId, AssetUuid);

/// Whether some entry of `s` carries the identity `id`.
pub open spec fn table_contains(s: Seq<UuidEntry>, id: GltfObjectId) -> bool {
    exists|i: int| 0 <= i < s.len() && id_eq(s[i].0, id)
}

/// The UUID that `s` assigns to `id`: the first entry with that identity.
pub open spec fn table_lookup(s: Seq<UuidEntry>, id: GltfObjectId) -> Option<AssetUuid>
    decreases s.len(),
{
    if s.len() == 0 {
        None
    } else if id_eq(s[0].0, id) {
        Some(s[0].1)
    } else {
        table_lookup(s.drop_first(), id)
    }
}

/// No two entries of `s` carry the same identity.
pub open spec fn unique_ids(s: Seq<UuidEntry>) -> bool {
    forall|i: int, j: int| 0 <= i < j < s.len() ==> !id_eq(s[i].0, s[j].0)
}

/// Every association of `s` still holds in `t`: no identity loses or changes
/// its UUID. This is the relation a table keeps to itself across an import.
pub open spec fn table_extends(s: Seq<UuidEntry>, t: Seq<UuidEntry>) -> bool {
    forall|id: GltfObjectId|
        #[trigger] table_lookup(s, id) is Some ==> table_lookup(t, id) == table_lookup(s, id)
}

/// A lookup misses exactly when no entry carries the identity.
pub proof fn lemma_lookup_none_iff_absent(s: Seq<UuidEntry>, id: GltfObjectId)
    ensures
        table_lookup(s, id) is None <==> !table_contains(s, id),
    decreases s.len(),
{
    if s.len() == 0 {
        assert(!table_contains(s, id));
    } else if id_eq(s[0].0, id) {
        assert(table_contains(s, id));
    } else {
        lemma_lookup_none_iff_absent(s.drop_first(), id);
        assert forall|i: int|
            0 <= i < s.len() && id_eq(s[i].0, id) implies table_contains(
            s.drop_first(),
            id,
        ) by {
            assert(i > 0);
            assert(id_eq(s.drop_first()[i - 1].0, id));
        }
        if table_contains(s.drop_first(), id) {
            let i = choose|i: int|
                0 <= i < s.drop_first().len() && id_eq(s.drop_first()[i].0, id);
            assert(id_eq(s[i + 1].0, id));
        }
    }
}

/// What appending one entry does to lookups: hits on the old table are kept,
/// and a miss now finds exactly the appended entry's identity.
pub proof fn lemma_lookup_push(s: Seq<UuidEntry>, e: UuidEntry, id: GltfObjectId)
    ensures
        table_lookup(s.push(e), id) == (if table_lookup(s, id) is Some {
            table_lookup(s, id)
        } else if id_eq(e.0, id) {
            Some(e.1)
        } else {
            None
        }),
    decreases s.len(),
{
    let t = s.push(e);
    if s.len() == 0 {
        assert(t.len() == 1);
        assert(t[0] == e);
        assert(t.drop_first().len() == 0);
        if id_eq(e.0, id) {
            assert(table_lookup(t, id) == Some(e.1));
        } else {
            assert(table_lookup(t.drop_first(), id) == None::<AssetUuid>);
            assert(table_lookup(t, id) == None::<AssetUuid>);
        }
        assert(table_lookup(s, id) == None::<AssetUuid>);
    } else {
        assert(t.len() == s.len() + 1);
        assert(t[0] == s[0]);
        assert(t.drop_first() =~= s.drop_first().push(e));
        lemma_lookup_push(s.drop_first(), e, id);
        if id_eq(s[0].0, id) {
            assert(table_lookup(t, id) == Some(s[0].1));
            assert(table_lookup(s, id) == Some(s[0].1));
        } else {
            assert(table_lookup(t, id) == table_lookup(s.drop_first().push(e), id));
            assert(table_lookup(s, id) == table_lookup(s.drop_first(), id));
        }
    }
}

/// Appending an entry with a fresh identity keeps the identities unique.
pub proof fn lemma_unique_push(s: Seq<UuidEntry>, e: UuidEntry)
    requires
        unique_ids(s),
        !table_contains(s, e.0),
    ensures
        unique_ids(s.push(e)),
{
    let t = s.push(e);
    assert forall|i: int, j: int| 0 <= i < j < t.len() implies !id_eq(t[i].0, t[j].0) by {
        if j < s.len() {
            assert(t[i] == s[i]);
            assert(t[j] == s[j]);
        } else {
            assert(t[i] == s[i]);
            assert(t[j] == e);
            assert(!id_eq(s[i].0, e.0));
        }
    }
}

/// Whether `s` and `t` associate, entry by entry, the same identities (by
/// their views) with the same UUIDs: the relation a table bears to its copy.
pub open spec fn tables_equivalent(s: Seq<UuidEntry>, t: Seq<UuidEntry>) -> bool {
    &&& s.len() == t.len()
    &&& forall|i: int|
        0 <= i < s.len() ==> id_eq((#[trigger] s[i]).0, t[i].0) && s[i].1 == t[i].1
}

/// A lookup only reads an identity's view, so identities with equal views
/// look up alike.
pub proof fn lemma_lookup_id_view(s: Seq<UuidEntry>, a: GltfObjectId, b: GltfObjectId)
    requires
        id_eq(a, b),
    ensures
        table_lookup(s, a) == table_lookup(s, b),
    decreases s.len(),
{
    if s.len() > 0 {
        crate::object_id::lemma_id_eq_symmetric(a, b);
        if id_eq(s[0].0, a) {
            crate::object_id::lemma_id_eq_transitive(s[0].0, a, b);
        }
        if id_eq(s[0].0, b) {
            crate::object_id::lemma_id_eq_transitive(s[0].0, b, a);
        }
        lemma_lookup_id_view(s.drop_first(), a, b);
    }
}

/// Equivalent tables answer every lookup alike.
pub proof fn lemma_equivalent_lookup(s: Seq<UuidEntry>, t: Seq<UuidEntry>, id: GltfObjectId)
    requires
        tables_equivalent(s, t),
    ensures
        table_lookup(t, id) == table_lookup(s, id),
    decreases s.len(),
{
    if s.len() > 0 {
        assert(id_eq(s[0].0, t[0].0));
        crate::object_id::lemma_id_eq_symmetric(s[0].0, t[0].0);
        if id_eq(s[0].0, id) {
            crate::object_id::lemma_id_eq_symmetric(s[0].0, id);
            crate::object_id::lemma_id_eq_transitive(t[0].0, s[0].0, id);
        }
        if id_eq(t[0].0, id) {
            crate::object_id::lemma_id_eq_transitive(s[0].0, t[0].0, id);
        }
        assert forall|i: int|
            0 <= i < s.drop_first().len() implies id_eq(
            (#[trigger] s.drop_first()[i]).0,
            t.drop_first()[i].0,
        ) && s.drop_first()[i].1 == t.drop_first()[i].1 by {
            assert(s.drop_first()[i] == s[i + 1]);
            assert(t.drop_first()[i] == t[i + 1]);
        }
        lemma_equivalent_lookup(s.drop_first(), t.drop_first(), id);
    }
}

/// A table equivalent to one with unique identities has unique identities.
pub proof fn lemma_equivalent_unique(s: Seq<UuidEntry>, t: Seq<UuidEntry>)
    requires
        tables_equivalent(s, t),
        unique_ids(s),
    ensures
        unique_ids(t),
{
    assert forall|i: int, j: int| 0 <= i < j < t.len() implies !id_eq(t[i].0, t[j].0) by {
        if id_eq(t[i].0, t[j].0) {
            crate::object_id::lemma_id_eq_transitive(s[i].0, t[i].0, t[j].0);
            crate::object_id::lemma_id_eq_symmetric(s[j].0, t[j].0);
            crate::object_id::lemma_id_eq_transitive(s[i].0, t[j].0, s[j].0);
        }
    }
}

/// A copy of a table's entries: the same associations, entry by entry.
pub fn duplicate_entries(v: &Vec<UuidEntry>) -> (r: Vec<UuidEntry>)
    ensures
        tables_equivalent(v@, r@),
        forall|id: GltfObjectId| #![auto] table_lookup(r@, id) == table_lookup(v@, id),
        unique_ids(v@) ==> unique_ids(r@),
{
    let mut entries: Vec<UuidEntry> = Vec::new();
    let mut i: usize = 0;
    while i < v.len()
        invariant
            i <= v@.len(),
            entries@.len() == i,
            forall|m: int|
                0 <= m < i ==> id_eq((#[trigger] v@[m]).0, entries@[m].0) && v@[m].1
                    == entries@[m].1,
        decreases v@.len() - i,
    {
        let e = &v[i];
        let id = match &e.0 {
            GltfObjectId::Name(n) => GltfObjectId::Name(clone_bytes(n)),
            GltfObjectId::Index(x) => GltfObjectId::Index(*x),
        };
        entries.push((id, e.1));
        i = i + 1;
    }
    proof {
        assert(tables_equivalent(v@, entries@));
        assert forall|id: GltfObjectId| #![auto]
            table_lookup(entries@, id) == table_lookup(v@, id) by {
            lemma_equivalent_lookup(v@, entries@, id);
        }
        if unique_ids(v@) {
            lemma_equivalent_unique(v@, entries@);
        }
    }
    entries
}

/// Per-class persisted table from object identity to assigned UUID.
pub struct UuidTable {
    pub entries: Vec<UuidEntry>,
}

impl View for UuidTable {
    type V = Seq<UuidEntry>;

    open spec fn view(&self) -> Seq<UuidEntry> {
        self.entries@
    }
}

/// Lookup over the entries from position `i` on.
fn lookup_from(entries: &Vec<UuidEntry>, id: &GltfObjectId, i: usize) -> (r: Option<AssetUuid>)
    requires
        i <= entries@.len(),
    ensures
        r == table_lookup(entries@.skip(i as int), *id),
    decreases entries@.len() - i,
{
    proof {
        assert(entries@.skip(i as int).len() == entries@.len() - i);
    }
    if i == entries.len() {
        None
    } else if entries[i].0.eq_id(id) {
        proof {
            assert(entries@.skip(i as int)[0] == entries@[i as int]);
        }
        Some(entries[i].1)
    } else {
        proof {
            assert(entries@.skip(i as int)[0] == entries@[i as int]);
            assert(entries@.skip(i as int).drop_first() =~= entries@.skip(i + 1));
        }
        lookup_from(entries, id, i + 1)
    }
}

impl UuidTable {
    /// The table with no associations yet.
    pub fn new() -> (r: UuidTable)
        ensures
            r@ =~= Seq::<UuidEntry>::empty(),
    {
        UuidTable { entries: Vec::new() }
    }

    /// No two entries carry the same identity.
    pub open spec fn wf(&self) -> bool {
        unique_ids(self@)
    }

    /// The UUID this table assigns to `id`, if any.
    pub fn lookup(&self, id: &GltfObjectId) -> (r: Option<AssetUuid>)
        ensures
            r == table_lookup(self@, *id),
    {
        proof {
            assert(self.entries@.skip(0) =~= self.entries@);
        }
        lookup_from(&self.entries, id, 0)
    }

    /// The UUID for `id`: the one already assigned where the identity is
    /// known, else `fresh`, which is recorded by appending an entry. The
    /// table never loses or rewrites an association, which is what keeps
    /// asset identity stable across re-imports.
    pub fn assign_or_get(&mut self, id: GltfObjectId, fresh: AssetUuid) -> (r: AssetUuid)
        ensures
            table_lookup(old(self)@, id) is Some ==> final(self)@ == old(self)@
                && table_lookup(old(self)@, id) == Some(r),
            table_lookup(old(self)@, id) is None ==> final(self)@ == old(self)@.push((id, r))
                && r == fresh,
            table_lookup(final(self)@, id) == Some(r),
            table_extends(old(self)@, final(self)@),
            old(self).wf() ==> final(self).wf(),
    {
        let found = self.lookup(&id);
        match found {
            Option::Some(u) => u,
            Option::None => {
                proof {
                    lemma_lookup_push(self@, (id, fresh), id);
                    lemma_lookup_none_iff_absent(self@, id);
                    if old(self).wf() {
                        lemma_unique_push(self@, (id, fresh));
                    }
                    assert forall|x: GltfObjectId| #[trigger]
                        table_lookup(self@, x) is Some implies table_lookup(
                        self@.push((id, fresh)),
                        x,
                    ) == table_lookup(self@, x) by {
                        lemma_lookup_push(self@, (id, fresh), x);
                    }
                }
                self.entries.push((id, fresh));
                fresh
            }
        }
    }

    /// The UUID for `id`: the one already assigned where the identity is
    /// known, else a freshly drawn one, recorded for all later imports.
    pub fn uuid_for_object(&mut self, id: GltfObjectId) -> (r: AssetUuid)
        ensures
            table_lookup(old(self)@, id) is Some ==> final(self)@ == old(self)@
                && table_lookup(old(self)@, id) == Some(r),
            table_lookup(old(self)@, id) is None ==> final(self)@ == old(self)@.push((id, r)),
            table_lookup(final(self)@, id) == Some(r),
            table_extends(old(self)@, final(self)@),
            old(self).wf() ==> final(self).wf(),
    {
        let fresh = fresh_uuid();
        self.assign_or_get(id, fresh)
    }

    /// How many identities have been assigned a UUID.
    pub fn len(&self) -> (r: usize)
        ensures
            r == self@.len(),
    {
        self.entries.len()
    }
}

} // verus!
