use engine::asset_load::LoadStatus;
use engine::asset_load::WaitAction;
use engine::asset_load::wait_for_asset_step;
use engine::debug3d::Debug3dDrawCall;
use engine::debug3d::DebugDraw3DDepthBehavior;
use engine::debug3d::LineList2DModel;
use engine::debug3d::LineList3DModel;
use engine::debug3d::add_line_list_2d;
use engine::debug3d::prepare_debug3d_draw_calls;
use engine::frame_submission::FramePass;
use engine::frame_submission::RecoveryAction;
use engine::frame_submission::VkResultCode;
use engine::frame_submission::begin_render_recovery;
use engine::frame_submission::frame_submission_order;
use engine::game_asset_lookup::GameAssetLookupSet;
use engine::init_modules;
use engine::phases::OpaqueRenderPhase;
use engine::phases::PreUiRenderPhase;
use engine::phases::SubmitNode;
use engine::phases::TransparentRenderPhase;
use engine::phases::UiRenderPhase;
use engine::schedule::EditorMode;
use engine::schedule::ScheduleCriteria;
use engine::schedule::ScheduleManager;
use engine::schedule::SystemCondition;
use engine::schedule::get_current_schedule_criteria;
use engine::schedule::system_included;
use engine::sprite_nodes::SpriteRenderNode;
use engine::sprite_nodes::SpriteRenderNodeSet;

#[test]
fn opaque_phase_batches_by_feature() {
    let nodes = vec![
        SubmitNode { feature_index: 2, submit_node_id: 0 },
        SubmitNode { feature_index: 0, submit_node_id: 1 },
        SubmitNode { feature_index: 1, submit_node_id: 2 },
        SubmitNode { feature_index: 0, submit_node_id: 3 },
    ];
    let sorted = OpaqueRenderPhase::sort_submit_nodes(nodes);
    assert_eq!(sorted.len(), 4);
    for w in sorted.windows(2) {
        assert!(w[0].feature_index <= w[1].feature_index);
    }
    let mut ids: Vec<u32> = sorted.iter().map(|n| n.submit_node_id).collect();
    ids.sort();
    assert_eq!(ids, vec![0, 1, 2, 3]);
}

#[test]
fn phase_names() {
    assert_eq!(OpaqueRenderPhase::render_phase_debug_name(), "OpaqueRenderPhase");
    assert_eq!(PreUiRenderPhase::render_phase_debug_name(), "PreUiRenderPhase");
    assert_eq!(UiRenderPhase::render_phase_debug_name(), "UiRenderPhase");
    assert_eq!(TransparentRenderPhase::render_phase_debug_name(), "TransparentRenderPhase");
}

#[test]
fn ui_phases_sort_like_opaque() {
    let nodes = vec![
        SubmitNode { feature_index: 3, submit_node_id: 0 },
        SubmitNode { feature_index: 1, submit_node_id: 1 },
    ];
    let a = PreUiRenderPhase::sort_submit_nodes(nodes.clone());
    let b = UiRenderPhase::sort_submit_nodes(nodes);
    assert_eq!(a[0].feature_index, 1);
    assert_eq!(b[0].feature_index, 1);
}

#[test]
fn debug_lines_batch_by_depth_behavior() {
    let lists = vec![
        LineList3DModel { point_count: 4, depth_behavior: DebugDraw3DDepthBehavior::Normal },
        LineList3DModel { point_count: 2, depth_behavior: DebugDraw3DDepthBehavior::NoDepthTest },
        LineList3DModel { point_count: 6, depth_behavior: DebugDraw3DDepthBehavior::Normal },
    ];
    let (normal, no_depth) = prepare_debug3d_draw_calls(&lists);
    assert_eq!(normal.len(), 2);
    assert_eq!(normal[0], Debug3dDrawCall { first_element: 0, count: 4 });
    assert_eq!(normal[1], Debug3dDrawCall { first_element: 4, count: 6 });
    assert_eq!(no_depth.len(), 1);
    assert_eq!(no_depth[0], Debug3dDrawCall { first_element: 0, count: 2 });
}

#[test]
fn debug_2d_lines_append_in_order() {
    let mut vertex_count: usize = 0;
    let mut draw_calls: Vec<Debug3dDrawCall> = Vec::new();
    add_line_list_2d(&mut vertex_count, &mut draw_calls, &LineList2DModel { point_count: 3 });
    add_line_list_2d(&mut vertex_count, &mut draw_calls, &LineList2DModel { point_count: 5 });
    assert_eq!(vertex_count, 8);
    assert_eq!(draw_calls[0], Debug3dDrawCall { first_element: 0, count: 3 });
    assert_eq!(draw_calls[1], Debug3dDrawCall { first_element: 3, count: 5 });
}

#[test]
fn sprite_slab_reuses_freed_slots() {
    let mut set = SpriteRenderNodeSet::new();
    let a = set.register_sprite(SpriteRenderNode { entity: 100 });
    let b = set.register_sprite(SpriteRenderNode { entity: 200 });
    assert_ne!(a.0, b.0);
    assert_eq!(set.max_render_node_count(), 2);
    set.unregister_sprite(a);
    let c = set.register_sprite(SpriteRenderNode { entity: 300 });
    assert_eq!(c.0, a.0);
    assert_eq!(set.max_render_node_count(), 2);
    let d = set.register_sprite(SpriteRenderNode { entity: 400 });
    assert_eq!(d.0, 2);
    assert_eq!(set.max_render_node_count(), 3);
}

#[test]
fn schedule_conditions_follow_application_state() {
    let editing = ScheduleCriteria::new(true, EditorMode::Active);
    let running = ScheduleCriteria::new(false, EditorMode::Inactive);
    assert!(system_included(SystemCondition::Always, &editing));
    assert!(system_included(SystemCondition::Always, &running));
    assert!(system_included(SystemCondition::EditorOnly, &editing));
    assert!(!system_included(SystemCondition::EditorOnly, &running));
    assert!(!system_included(SystemCondition::SimulationUnpausedOnly, &editing));
    assert!(system_included(SystemCondition::SimulationUnpausedOnly, &running));
}

#[test]
fn schedule_manager_selects_by_criteria() {
    let manager = ScheduleManager::new();
    let running = get_current_schedule_criteria(false, EditorMode::Inactive);
    let editing = get_current_schedule_criteria(true, EditorMode::Active);
    let odd = get_current_schedule_criteria(true, EditorMode::Inactive);
    assert_eq!(manager.schedule_index_for(&running), Some(0));
    assert_eq!(manager.schedule_index_for(&editing), Some(1));
    assert_eq!(manager.schedule_index_for(&odd), None);
}

#[test]
fn asset_wait_decisions() {
    assert_eq!(wait_for_asset_step(&LoadStatus::Loaded), WaitAction::Done);
    assert_eq!(wait_for_asset_step(&LoadStatus::Loading), WaitAction::KeepWaiting);
    assert_eq!(wait_for_asset_step(&LoadStatus::DoesNotExist), WaitAction::ReportMissing);
    assert_eq!(wait_for_asset_step(&LoadStatus::LoadError), WaitAction::ReportError);
}

#[test]
fn frame_recovery_decisions() {
    assert_eq!(begin_render_recovery(&None), RecoveryAction::Proceed);
    assert_eq!(begin_render_recovery(&Some(Ok(()))), RecoveryAction::Proceed);
    assert_eq!(
        begin_render_recovery(&Some(Err(VkResultCode::SuboptimalKhr))),
        RecoveryAction::Proceed
    );
    assert_eq!(
        begin_render_recovery(&Some(Err(VkResultCode::ErrorOutOfDateKhr))),
        RecoveryAction::RebuildSwapchain
    );
    assert_eq!(begin_render_recovery(&Some(Err(VkResultCode::OtherError))), RecoveryAction::Fail);
}

#[test]
fn frame_passes_submit_in_fixed_order() {
    let order = frame_submission_order(2);
    assert_eq!(order.len(), 15);
    assert_eq!(order[0].pass, FramePass::Opaque);
    assert_eq!(order[0].command_buffer_index, 2);
    assert_eq!(order[1].pass, FramePass::Msaa);
    assert_eq!(order[2].pass, FramePass::BloomExtract);
    for j in 0..10 {
        assert_eq!(order[3 + j].pass, FramePass::BloomBlur);
        assert_eq!(order[3 + j].command_buffer_index, j % 2);
    }
    assert_eq!(order[13].pass, FramePass::BloomCombine);
    assert_eq!(order[14].pass, FramePass::Ui);
    assert_eq!(order[14].command_buffer_index, 2);
}

#[test]
fn asset_lookup_metrics_count_loaded_meshes() {
    let mut set = GameAssetLookupSet::new();
    assert_eq!(set.metrics().mesh_count, 0);
    set.meshes.insert(11);
    set.meshes.insert(12);
    assert_eq!(set.metrics().mesh_count, 2);
    set.destroy();
    assert_eq!(set.metrics().mesh_count, 0);
}

#[test]
fn module_anchor_is_callable() {
    init_modules();
}
