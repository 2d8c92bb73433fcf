//! Waiting for an essential asset to load.
//!
//! At startup the renderer blocks until its materials are loaded. Each turn
//! of the wait loop reads the asset's load status and decides what to do;
//! the waiting itself (pumping the loader, sleeping, printing) happens on
//! the unverified side, which feeds the status back here.

use vstd::prelude::*;

verus! {

/// What the loader reports of one asset.
#[derive(Clone, Copy, Debug, PartialEq, Eq, Structural)]
pub enum LoadStatus {
    NotRequested,
    Loading,
    Loaded,
    Unloading,
    DoesNotExist,
    LoadError,
}

/// What one turn of the wait loop does next.
#[derive(Clone, Copy, Debug, PartialEq, Eq, Structural)]
pub enum WaitAction {
    /// The asset is loaded: stop waiting successfully.
    Done,
    /// The asset is still loading: sleep briefly and ask again.
    KeepWaiting,
    /// The asset does not exist: report it and keep asking.
    ReportMissing,
    /// Loading failed: report it and keep asking.
    ReportError,
}

/// Decide one turn of the wait loop from the reported status. A status of
/// `NotRequested` or `Unloading` cannot be reported for an asset whose load
/// was begun and is being waited for.
pub fn wait_for_asset_step(status: &LoadStatus) -> (r: WaitAction)
    requires
        *status != LoadStatus::NotRequested,
        *status != LoadStatus::Unloading,
    ensures
        r == WaitAction::Done <==> *status == LoadStatus::Loaded,
        r == WaitAction::KeepWaiting <==> *status == LoadStatus::Loading,
        r == WaitAction::ReportMissing <==> *status == LoadStatus::DoesNotExist,
        r == WaitAction::ReportError <==> *status == LoadStatus::LoadError,
{
    match status {
        LoadStatus::Loading => WaitAction::KeepWaiting,
        LoadStatus::Loaded => WaitAction::Done,
        LoadStatus::DoesNotExist => WaitAction::ReportMissing,
        _ => WaitAction::ReportError,
    }
}

} // verus!
