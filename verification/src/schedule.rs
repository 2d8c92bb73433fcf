//! Simulation schedules: which systems run in which application state.
//!
//! Each frame runs one prebuilt schedule, chosen by the current criteria:
//! whether the simulation is paused and whether the editor is active. A
//! system is in a schedule always, only while the editor is active, or only
//! while the simulation runs; the schedules themselves are built and
//! executed by the ECS on the unverified side.

use vstd::prelude::*;

verus! {

/// Whether the editor is currently driving the application.
#[derive(Clone, Copy, Debug, PartialEq, Eq, Hash, Structural)]
pub enum EditorMode {
    Inactive,
    Active,
}

/// The application state a schedule is built for.
#[derive(Clone, Copy, Debug, PartialEq, Eq, Hash, Structural)]
pub struct ScheduleCriteria {
    pub is_simulation_paused: bool,
    pub editor_mode: EditorMode,
}

impl ScheduleCriteria {
    /// The criteria with the given state.
    pub fn new(is_simulation_paused: bool, editor_mode: EditorMode) -> (r: ScheduleCriteria)
        ensures
            r.is_simulation_paused == is_simulation_paused,
            r.editor_mode == editor_mode,
    {
        ScheduleCriteria { is_simulation_paused, editor_mode }
    }
}

/// When a system participates in a schedule.
#[derive(Clone, Copy, Debug, PartialEq, Eq, Structural)]
pub enum SystemCondition {
    Always,
    EditorOnly,
    SimulationUnpausedOnly,
}

/// Whether a system with the given condition is part of the schedule built
/// for the given criteria.
pub open spec fn spec_system_included(
    condition: SystemCondition,
    criteria: ScheduleCriteria,
) -> bool {
    match condition {
        SystemCondition::Always => true,
        SystemCondition::EditorOnly => criteria.editor_mode == EditorMode::Active,
        SystemCondition::SimulationUnpausedOnly => !criteria.is_simulation_paused,
    }
}

/// Whether a system with the given condition is part of the schedule built
/// for the given criteria: always-systems everywhere, editor systems only
/// with the editor active, simulation systems only while unpaused.
pub fn system_included(condition: SystemCondition, criteria: &ScheduleCriteria) -> (r: bool)
    ensures
        r == spec_system_included(condition, *criteria),
{
    match condition {
        SystemCondition::Always => true,
        SystemCondition::EditorOnly => criteria.editor_mode == EditorMode::Active,
        SystemCondition::SimulationUnpausedOnly => !criteria.is_simulation_paused,
    }
}

/// The criteria of the current frame, from the state the resources report.
pub fn get_current_schedule_criteria(
    is_simulation_paused: bool,
    editor_mode: EditorMode,
) -> (r: ScheduleCriteria)
    ensures
        r.is_simulation_paused == is_simulation_paused,
        r.editor_mode == editor_mode,
{
    ScheduleCriteria::new(is_simulation_paused, editor_mode)
}

/// The states schedules are prebuilt for: running without the editor, and
/// paused with the editor active.
pub fn create_schedule_criteria() -> (r: Vec<ScheduleCriteria>)
    ensures
        r@.len() == 2,
        r@[0] == (ScheduleCriteria {
            is_simulation_paused: false,
            editor_mode: EditorMode::Inactive,
        }),
        r@[1] == (ScheduleCriteria { is_simulation_paused: true, editor_mode: EditorMode::Active }),
{
    let mut r: Vec<ScheduleCriteria> = Vec::new();
    r.push(ScheduleCriteria::new(false, EditorMode::Inactive));
    r.push(ScheduleCriteria::new(true, EditorMode::Active));
    r
}

/// The prebuilt schedules, keyed by the criteria they were built for. The
/// schedules themselves live on the unverified side, referenced here by
/// their position.
pub struct ScheduleManager {
    pub criteria: Vec<ScheduleCriteria>,
}

impl ScheduleManager {
    /// A manager holding one schedule per expected application state.
    pub fn new() -> (r: ScheduleManager)
        ensures
            r.criteria@.len() == 2,
            r.criteria@[0] == (ScheduleCriteria {
                is_simulation_paused: false,
                editor_mode: EditorMode::Inactive,
            }),
            r.criteria@[1] == (ScheduleCriteria {
                is_simulation_paused: true,
                editor_mode: EditorMode::Active,
            }),
    {
        ScheduleManager { criteria: create_schedule_criteria() }
    }

    /// The position of the schedule built for `current`, if one was: the
    /// schedule executed this frame.
    pub fn schedule_index_for(&self, current: &ScheduleCriteria) -> (r: Option<usize>)
        ensures
            r matches Some(i) ==> i < self.criteria@.len() && self.criteria@[i as int] == *current,
            r is None ==> forall|i: int|
                0 <= i < self.criteria@.len() ==> self.criteria@[i] != *current,
    {
        let mut i: usize = 0;
        while i < self.criteria.len()
            invariant
                i <= self.criteria@.len(),
                forall|j: int| 0 <= j < i ==> self.criteria@[j] != *current,
            decreases self.criteria@.len() - i,
        {
            let c = &self.criteria[i];
            if *c == *current {
                return Some(i);
            }
            i = i + 1;
        }
        None
    }
}

} // verus!
