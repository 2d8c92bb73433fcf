//! Core logic of a prototype 3D engine's asset pipeline: the GLTF importer's
//! deterministic asset-graph construction (stable UUIDs per logical object
//! across re-imports), mesh/image/material extraction, render-node bookkeeping,
//! render-phase submit-node ordering, and the simulation schedule rules.

use vstd::prelude::*;

pub mod asset_load;
pub mod asset_uuid;
pub mod color_space;
pub mod debug3d;
pub mod frame_submission;
pub mod game_asset_lookup;
pub mod gltf_model;
pub mod image_import;
pub mod import_error;
pub mod importer;
pub mod importer_state;
pub mod material_import;
pub mod mesh_import;
pub mod object_id;
pub mod phases;
pub mod prefab_import;
pub mod schedule;
pub mod sprite_nodes;
pub mod uuid_table;

verus! {

/// Anchor referenced by the asset-daemon entry point so the linker keeps the
/// modules that register importers through constructor segments.
pub fn init_modules() {
}

} // verus!
