//! Stable asset identity: the 16-byte UUID that the asset daemon uses to refer
//! to one imported asset, held here as its 128-bit value.

use vstd::prelude::*;

verus! {

/// Identity of one imported asset, stable across re-imports of the same
/// document: the 128-bit value of its 16-byte UUID.
#[derive(Clone, Copy, Debug, PartialEq, Eq, Hash, Structural)]
pub struct AssetUuid(pub u128);

/// Relies on uuid::Uuid::new_v4, a freshly drawn random (version 4) UUID.
/// The value depends on a random generator, so nothing is stated of it: every
/// caller must hold for any value that comes back.
#[verifier::external_body]
pub fn fresh_uuid() -> AssetUuid {
    AssetUuid(uuid::Uuid::new_v4().as_u128())
}

} // verus!
