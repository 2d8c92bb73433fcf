//! Lookups for loaded game assets, and their metrics.
//!
//! The game resource manager keeps, per asset class, the set of assets that
//! are loaded and GPU-resident, keyed by load handle. Here the set is
//! tracked by its handles; what the metrics report is how many are loaded.

use vstd::prelude::*;

verus! {

/// Counters over the loaded game assets.
#[derive(Clone, Copy, Debug, PartialEq, Eq, Structural)]
pub struct GameAssetMetrics {
    pub mesh_count: usize,
}

/// The loaded assets of one class, by their 64-bit load handles.
pub struct AssetLookup {
    pub handles: Vec<u64>,
}

impl AssetLookup {
    /// A lookup with nothing loaded.
    pub fn new() -> (r: AssetLookup)
        ensures
            r.handles@.len() == 0,
    {
        AssetLookup { handles: Vec::new() }
    }

    /// Record one more loaded asset.
    pub fn insert(&mut self, handle: u64)
        ensures
            final (self).handles@ == old(self).handles@.push(handle),
    {
        self.handles.push(handle);
    }

    /// How many assets are loaded.
    pub fn len(&self) -> (r: usize)
        ensures
            r == self.handles@.len(),
    {
        self.handles.len()
    }

    /// Drop every loaded asset.
    pub fn destroy(&mut self)
        ensures
            final (self).handles@.len() == 0,
    {
        self.handles.clear();
    }
}

/// The per-class lookups of loaded game assets.
pub struct GameAssetLookupSet {
    pub meshes: AssetLookup,
}

impl GameAssetLookupSet {
    /// A set with nothing loaded.
    pub fn new() -> (r: GameAssetLookupSet)
        ensures
            r.meshes.handles@.len() == 0,
    {
        GameAssetLookupSet { meshes: AssetLookup::new() }
    }

    /// The current counters: how many meshes are loaded.
    pub fn metrics(&self) -> (r: GameAssetMetrics)
        ensures
            r.mesh_count == self.meshes.handles@.len(),
    {
        GameAssetMetrics { mesh_count: self.meshes.len() }
    }

    /// Drop every loaded asset.
    pub fn destroy(&mut self)
        ensures
            final (self).meshes.handles@.len() == 0,
    {
        self.meshes.destroy();
    }
}

} // verus!
