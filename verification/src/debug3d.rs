//! Debug line drawing: batching line lists into shared vertex buffers.
//!
//! Each line list drawn in a frame contributes its points to one shared
//! vertex buffer and one draw call covering exactly its range. Lists are
//! split by depth behavior: depth-tested lists batch into one buffer,
//! lists drawn over everything into another. The point coordinates are
//! floating point and stay on the unverified side; what is verified is the
//! accounting: every draw call starts where the previous contribution
//! ended and covers its list's points.

use vstd::prelude::*;

verus! {

/// Whether a line list is depth-tested or drawn over everything.
#[derive(Clone, Copy, Debug, PartialEq, Eq, Structural)]
pub enum DebugDraw3DDepthBehavior {
    Normal,
    NoDepthTest,
}

/// What the batching reads of one 3D line list: how many points it has and
/// how it is depth-tested.
#[derive(Clone, Copy, Debug, PartialEq, Eq, Structural)]
pub struct LineList3DModel {
    pub point_count: usize,
    pub depth_behavior: DebugDraw3DDepthBehavior,
}

/// What the batching reads of one 2D line list: how many points it has.
#[derive(Clone, Copy, Debug, PartialEq, Eq, Structural)]
pub struct LineList2DModel {
    pub point_count: usize,
}

/// One draw call into a shared vertex buffer: the first vertex and how many.
#[derive(Clone, Copy, Debug, PartialEq, Eq, Structural)]
pub struct Debug3dDrawCall {
    pub first_element: u32,
    pub count: u32,
}

/// How many vertices the lists with the given behavior contribute in all.
pub open spec fn vertex_count_for(
    lists: Seq<LineList3DModel>,
    behavior: DebugDraw3DDepthBehavior,
) -> int
    decreases lists.len(),
{
    if lists.len() == 0 {
        0
    } else {
        vertex_count_for(lists.drop_last(), behavior) + (if lists.last().depth_behavior
            == behavior {
            lists.last().point_count as int
        } else {
            0
        })
    }
}

/// The draw calls the lists with the given behavior produce: one per list,
/// starting where the previous contribution of the same behavior ended.
pub open spec fn draw_calls_for(
    lists: Seq<LineList3DModel>,
    behavior: DebugDraw3DDepthBehavior,
) -> Seq<Debug3dDrawCall>
    decreases lists.len(),
{
    if lists.len() == 0 {
        Seq::empty()
    } else {
        let rest = draw_calls_for(lists.drop_last(), behavior);
        if lists.last().depth_behavior == behavior {
            rest.push(
                Debug3dDrawCall {
                    first_element: vertex_count_for(lists.drop_last(), behavior) as u32,
                    count: lists.last().point_count as u32,
                },
            )
        } else {
            rest
        }
    }
}

/// Append one 3D line list to its shared vertex buffer: the list's points go
/// after everything already there, and one draw call covers exactly them.
/// The vertex data itself is written on the unverified side; here the
/// buffer is tracked by its vertex count.
pub fn add_line_list_3d(
    vertex_count: &mut usize,
    draw_calls: &mut Vec<Debug3dDrawCall>,
    line_list: &LineList3DModel,
)
    requires
        *old(vertex_count) + line_list.point_count <= u32::MAX,
    ensures
        *final (vertex_count) == *old(vertex_count) + line_list.point_count,
        final (draw_calls)@ == old(draw_calls)@.push(
            Debug3dDrawCall {
                first_element: *old(vertex_count) as u32,
                count: line_list.point_count as u32,
            },
        ),
{
    let first = *vertex_count;
    draw_calls.push(
        Debug3dDrawCall { first_element: first as u32, count: line_list.point_count as u32 },
    );
    *vertex_count = first + line_list.point_count;
}

/// Append one 2D line list to the 2D vertex buffer, the same way.
pub fn add_line_list_2d(
    vertex_count: &mut usize,
    draw_calls: &mut Vec<Debug3dDrawCall>,
    line_list: &LineList2DModel,
)
    requires
        *old(vertex_count) + line_list.point_count <= u32::MAX,
    ensures
        *final (vertex_count) == *old(vertex_count) + line_list.point_count,
        final (draw_calls)@ == old(draw_calls)@.push(
            Debug3dDrawCall {
                first_element: *old(vertex_count) as u32,
                count: line_list.point_count as u32,
            },
        ),
{
    let first = *vertex_count;
    draw_calls.push(
        Debug3dDrawCall { first_element: first as u32, count: line_list.point_count as u32 },
    );
    *vertex_count = first + line_list.point_count;
}

/// Split the frame's 3D line lists by depth behavior and batch each class
/// into its own vertex buffer: depth-tested draw calls and overlay draw
/// calls, each covering exactly its list's points in order.
pub fn prepare_debug3d_draw_calls(line_lists_3d: &Vec<LineList3DModel>) -> (r: (
    Vec<Debug3dDrawCall>,
    Vec<Debug3dDrawCall>,
))
    requires
        vertex_count_for(line_lists_3d@, DebugDraw3DDepthBehavior::Normal) <= u32::MAX,
        vertex_count_for(line_lists_3d@, DebugDraw3DDepthBehavior::NoDepthTest) <= u32::MAX,
    ensures
        r.0@ == draw_calls_for(line_lists_3d@, DebugDraw3DDepthBehavior::Normal),
        r.1@ == draw_calls_for(line_lists_3d@, DebugDraw3DDepthBehavior::NoDepthTest),
{
    let mut draw_calls_3d: Vec<Debug3dDrawCall> = Vec::new();
    let mut draw_calls_3d_no_depth: Vec<Debug3dDrawCall> = Vec::new();
    let mut vertex_count_3d: usize = 0;
    let mut vertex_count_3d_no_depth: usize = 0;
    let ghost lists = line_lists_3d@;
    let mut i: usize = 0;
    while i < line_lists_3d.len()
        invariant
            i <= lists.len(),
            lists == line_lists_3d@,
            vertex_count_for(lists, DebugDraw3DDepthBehavior::Normal) <= u32::MAX,
            vertex_count_for(lists, DebugDraw3DDepthBehavior::NoDepthTest) <= u32::MAX,
            vertex_count_3d == vertex_count_for(
                lists.take(i as int),
                DebugDraw3DDepthBehavior::Normal,
            ),
            vertex_count_3d_no_depth == vertex_count_for(
                lists.take(i as int),
                DebugDraw3DDepthBehavior::NoDepthTest,
            ),
            draw_calls_3d@ == draw_calls_for(lists.take(i as int), DebugDraw3DDepthBehavior::Normal),
            draw_calls_3d_no_depth@ == draw_calls_for(
                lists.take(i as int),
                DebugDraw3DDepthBehavior::NoDepthTest,
            ),
        decreases lists.len() - i,
    {
        proof {
            assert(lists.take(i + 1).drop_last() =~= lists.take(i as int));
            assert(lists.take(i + 1).last() == lists[i as int]);
            lemma_vertex_count_prefix(lists, i + 1, DebugDraw3DDepthBehavior::Normal);
            lemma_vertex_count_prefix(lists, i + 1, DebugDraw3DDepthBehavior::NoDepthTest);
        }
        let line_list = &line_lists_3d[i];
        match line_list.depth_behavior {
            DebugDraw3DDepthBehavior::Normal => {
                add_line_list_3d(&mut vertex_count_3d, &mut draw_calls_3d, line_list);
            }
            DebugDraw3DDepthBehavior::NoDepthTest => {
                add_line_list_3d(
                    &mut vertex_count_3d_no_depth,
                    &mut draw_calls_3d_no_depth,
                    line_list,
                );
            }
        }
        i = i + 1;
    }
    proof {
        assert(lists.take(lists.len() as int) =~= lists);
    }
    (draw_calls_3d, draw_calls_3d_no_depth)
}

/// A prefix of the lists never contributes more vertices than all of them.
proof fn lemma_vertex_count_prefix(
    lists: Seq<LineList3DModel>,
    j: int,
    behavior: DebugDraw3DDepthBehavior,
)
    requires
        0 <= j <= lists.len(),
    ensures
        vertex_count_for(lists.take(j), behavior) <= vertex_count_for(lists, behavior),
        vertex_count_for(lists.take(j), behavior) >= 0,
    decreases lists.len() - j,
{
    if j == lists.len() {
        assert(lists.take(j) =~= lists);
        lemma_vertex_count_nonneg(lists.take(j), behavior);
    } else {
        lemma_vertex_count_prefix(lists, j + 1, behavior);
        assert(lists.take(j + 1).drop_last() =~= lists.take(j));
        assert(lists.take(j + 1).last() == lists[j]);
        lemma_vertex_count_nonneg(lists.take(j), behavior);
    }
}

/// A vertex total is never negative.
proof fn lemma_vertex_count_nonneg(lists: Seq<LineList3DModel>, behavior: DebugDraw3DDepthBehavior)
    ensures
        vertex_count_for(lists, behavior) >= 0,
    decreases lists.len(),
{
    if lists.len() > 0 {
        lemma_vertex_count_nonneg(lists.drop_last(), behavior);
    }
}

} // verus!
