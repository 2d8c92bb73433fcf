//! Identity of a logical object inside one GLTF document.
//!
//! An object (image, material, mesh, buffer, scene) is identified by its name
//! where the document gives one, else by its index within its array. The
//! importer keys its persisted UUID tables by this identity, and sorts those
//! tables by it so that re-imports produce deterministic output. Names are
//! held as their UTF-8 bytes; the order on identities is the order the
//! persisted tables are sorted by: names before indices, names between each
//! other lexicographically by bytes, indices numerically.

use vstd::prelude::*;

verus! {

/// Identity of one logical object in a GLTF document: its name (UTF-8 bytes)
/// if the document names it, else its index within its array.
#[derive(Clone, Debug, PartialEq, Eq, Hash)]
pub enum GltfObjectId {
    Name(Vec<u8>),
    Index(usize),
}

/// Equality of object identities, by name bytes or by index.
pub open spec fn id_eq(a: GltfObjectId, b: GltfObjectId) -> bool {
    match (a, b) {
        (GltfObjectId::Name(x), GltfObjectId::Name(y)) => x@ == y@,
        (GltfObjectId::Index(x), GltfObjectId::Index(y)) => x == y,
        _ => false,
    }
}

/// Lexicographic order on byte strings: the empty string first, then by the
/// first differing byte.
pub open spec fn bytes_le(a: Seq<u8>, b: Seq<u8>) -> bool
    decreases a.len(),
{
    if a.len() == 0 {
        true
    } else if b.len() == 0 {
        false
    } else if a[0] < b[0] {
        true
    } else if a[0] > b[0] {
        false
    } else {
        bytes_le(a.drop_first(), b.drop_first())
    }
}

/// Total order on object identities: named objects before indexed ones,
/// names lexicographically, indices numerically.
pub open spec fn id_le(a: GltfObjectId, b: GltfObjectId) -> bool {
    match (a, b) {
        (GltfObjectId::Name(x), GltfObjectId::Name(y)) => bytes_le(x@, y@),
        (GltfObjectId::Name(_), GltfObjectId::Index(_)) => true,
        (GltfObjectId::Index(_), GltfObjectId::Name(_)) => false,
        (GltfObjectId::Index(x), GltfObjectId::Index(y)) => x <= y,
    }
}

pub proof fn lemma_bytes_le_total(a: Seq<u8>, b: Seq<u8>)
    ensures
        bytes_le(a, b) || bytes_le(b, a),
    decreases a.len(),
{
    if a.len() == 0 {
    } else if b.len() == 0 {
    } else if a[0] == b[0] {
        lemma_bytes_le_total(a.drop_first(), b.drop_first());
    }
}

pub proof fn lemma_bytes_le_antisymmetric(a: Seq<u8>, b: Seq<u8>)
    requires
        bytes_le(a, b),
        bytes_le(b, a),
    ensures
        a == b,
    decreases a.len(),
{
    if a.len() == 0 {
        assert(a =~= b);
    } else {
        assert(a[0] == b[0]);
        lemma_bytes_le_antisymmetric(a.drop_first(), b.drop_first());
        assert(a.len() == b.len());
        assert forall|i: int| 0 <= i < a.len() implies a[i] == b[i] by {
            if i > 0 {
                assert(a.drop_first()[i - 1] == b.drop_first()[i - 1]);
            }
        }
        assert(a =~= b);
    }
}

pub proof fn lemma_bytes_le_transitive(a: Seq<u8>, b: Seq<u8>, c: Seq<u8>)
    requires
        bytes_le(a, b),
        bytes_le(b, c),
    ensures
        bytes_le(a, c),
    decreases a.len(),
{
    if a.len() == 0 {
    } else if b.len() == 0 {
    } else if c.len() == 0 {
    } else if a[0] == b[0] && b[0] == c[0] {
        lemma_bytes_le_transitive(a.drop_first(), b.drop_first(), c.drop_first());
    }
}

pub proof fn lemma_id_le_total(a: GltfObjectId, b: GltfObjectId)
    ensures
        id_le(a, b) || id_le(b, a),
{
    match (a, b) {
        (GltfObjectId::Name(x), GltfObjectId::Name(y)) => {
            lemma_bytes_le_total(x@, y@);
        }
        _ => {}
    }
}

pub proof fn lemma_id_le_antisymmetric(a: GltfObjectId, b: GltfObjectId)
    requires
        id_le(a, b),
        id_le(b, a),
    ensures
        id_eq(a, b),
{
    match (a, b) {
        (GltfObjectId::Name(x), GltfObjectId::Name(y)) => {
            lemma_bytes_le_antisymmetric(x@, y@);
        }
        _ => {}
    }
}

pub proof fn lemma_id_eq_symmetric(a: GltfObjectId, b: GltfObjectId)
    ensures
        id_eq(a, b) == id_eq(b, a),
{
}

pub proof fn lemma_id_eq_transitive(a: GltfObjectId, b: GltfObjectId, c: GltfObjectId)
    requires
        id_eq(a, b),
        id_eq(b, c),
    ensures
        id_eq(a, c),
{
}

pub proof fn lemma_id_le_transitive(a: GltfObjectId, b: GltfObjectId, c: GltfObjectId)
    requires
        id_le(a, b),
        id_le(b, c),
    ensures
        id_le(a, c),
{
    match (a, c) {
        (GltfObjectId::Name(x), GltfObjectId::Name(z)) => {
            match b {
                GltfObjectId::Name(y) => {
                    lemma_bytes_le_transitive(x@, y@, z@);
                }
                GltfObjectId::Index(_) => {}
            }
        }
        _ => {}
    }
}

/// Lexicographic comparison of the byte suffixes starting at `i`.
fn bytes_le_from(a: &Vec<u8>, b: &Vec<u8>, i: usize) -> (r: bool)
    requires
        i <= a@.len(),
        i <= b@.len(),
    ensures
        r == bytes_le(a@.skip(i as int), b@.skip(i as int)),
    decreases a@.len() - i,
{
    proof {
        assert(a@.skip(i as int).len() == a@.len() - i);
        assert(b@.skip(i as int).len() == b@.len() - i);
    }
    if i == a.len() {
        true
    } else if i == b.len() {
        false
    } else if a[i] < b[i] {
        true
    } else if a[i] > b[i] {
        false
    } else {
        proof {
            assert(a@.skip(i as int).drop_first() =~= a@.skip(i + 1));
            assert(b@.skip(i as int).drop_first() =~= b@.skip(i + 1));
        }
        bytes_le_from(a, b, i + 1)
    }
}

/// Equality of the byte suffixes starting at `i`.
fn bytes_eq_from(a: &Vec<u8>, b: &Vec<u8>, i: usize) -> (r: bool)
    requires
        i <= a@.len(),
        i <= b@.len(),
    ensures
        r == (a@.skip(i as int) == b@.skip(i as int)),
    decreases a@.len() - i,
{
    if i == a.len() || i == b.len() {
        let r = a.len() == b.len();
        proof {
            if r {
                assert(a@.skip(i as int) =~= b@.skip(i as int));
            } else {
                assert(a@.skip(i as int).len() != b@.skip(i as int).len());
            }
        }
        r
    } else if a[i] != b[i] {
        proof {
            assert(a@.skip(i as int)[0] == a@[i as int]);
            assert(b@.skip(i as int)[0] == b@[i as int]);
        }
        false
    } else {
        let r = bytes_eq_from(a, b, i + 1);
        proof {
            if r {
                assert(a@.skip(i + 1).len() == b@.skip(i + 1).len());
                assert forall|j: int|
                    0 <= j < a@.skip(i as int).len() implies a@.skip(i as int)[j] == b@.skip(
                    i as int,
                )[j] by {
                    if j > 0 {
                        assert(a@.skip(i as int)[j] == a@.skip(i + 1)[j - 1]);
                        assert(b@.skip(i as int)[j] == b@.skip(i + 1)[j - 1]);
                        assert(a@.skip(i + 1)[j - 1] == b@.skip(i + 1)[j - 1]);
                    } else {
                        assert(a@.skip(i as int)[0] == a@[i as int]);
                        assert(b@.skip(i as int)[0] == b@[i as int]);
                    }
                }
                assert(a@.skip(i as int) =~= b@.skip(i as int));
            } else {
                assert(a@.skip(i as int) != b@.skip(i as int)) by {
                    if a@.skip(i as int) == b@.skip(i as int) {
                        assert(a@.skip(i as int).drop_first() =~= a@.skip(i + 1));
                        assert(b@.skip(i as int).drop_first() =~= b@.skip(i + 1));
                    }
                }
            }
        }
        r
    }
}

/// Whether `id` is the identity of the object with the given name at the
/// given position: its name where it has one, else its index.
pub open spec fn names_object(id: GltfObjectId, name: Option<Vec<u8>>, index: usize) -> bool {
    match name {
        Some(n) => id matches GltfObjectId::Name(v) && v@ == n@,
        None => id == GltfObjectId::Index(index),
    }
}

/// The identity of the object with the given name at the given position, as
/// a specification value for stating lookups.
pub open spec fn object_id_spec(name: Option<Vec<u8>>, index: usize) -> GltfObjectId {
    match name {
        Some(n) => GltfObjectId::Name(n),
        None => GltfObjectId::Index(index),
    }
}

/// An identity that names an object equals the object's specification
/// identity, by view.
pub proof fn lemma_names_object_id_eq(id: GltfObjectId, name: Option<Vec<u8>>, index: usize)
    requires
        names_object(id, name, index),
    ensures
        id_eq(id, object_id_spec(name, index)),
{
}

/// The identity of the object with the given name at the given position.
pub fn object_id_for(name: &Option<Vec<u8>>, index: usize) -> (r: GltfObjectId)
    ensures
        names_object(r, *name, index),
{
    match name {
        Some(n) => GltfObjectId::Name(clone_bytes(n)),
        None => GltfObjectId::Index(index),
    }
}

/// Copy of a byte vector with the same contents.
pub fn clone_bytes(v: &Vec<u8>) -> (r: Vec<u8>)
    ensures
        r@ == v@,
{
    let mut r: Vec<u8> = Vec::new();
    let mut i: usize = 0;
    while i < v.len()
        invariant
            i <= v@.len(),
            r@ == v@.take(i as int),
        decreases v@.len() - i,
    {
        r.push(v[i]);
        proof {
            assert(v@.take(i + 1) =~= v@.take(i as int).push(v@[i as int]));
        }
        i = i + 1;
    }
    proof {
        assert(v@.take(v@.len() as int) =~= v@);
    }
    r
}

impl GltfObjectId {
    /// Whether `self` and `other` name the same logical object.
    pub fn eq_id(&self, other: &GltfObjectId) -> (r: bool)
        ensures
            r == id_eq(*self, *other),
    {
        match (self, other) {
            (GltfObjectId::Name(x), GltfObjectId::Name(y)) => {
                proof {
                    assert(x@.skip(0) =~= x@);
                    assert(y@.skip(0) =~= y@);
                }
                bytes_eq_from(x, y, 0)
            }
            (GltfObjectId::Index(x), GltfObjectId::Index(y)) => *x == *y,
            _ => false,
        }
    }

    /// Whether `self` comes at or before `other` in the persisted-table order.
    pub fn le_id(&self, other: &GltfObjectId) -> (r: bool)
        ensures
            r == id_le(*self, *other),
    {
        match (self, other) {
            (GltfObjectId::Name(x), GltfObjectId::Name(y)) => {
                proof {
                    assert(x@.skip(0) =~= x@);
                    assert(y@.skip(0) =~= y@);
                }
                bytes_le_from(x, y, 0)
            }
            (GltfObjectId::Name(_), GltfObjectId::Index(_)) => true,
            (GltfObjectId::Index(_), GltfObjectId::Name(_)) => false,
            (GltfObjectId::Index(x), GltfObjectId::Index(y)) => *x <= *y,
        }
    }
}

} // verus!
