//! Render phases: the order submit nodes are drawn in within one pass.
//!
//! A phase receives the submit nodes that all features produced for a view
//! and decides their draw order. The opaque, pre-UI and UI phases batch by
//! feature: they sort by feature index, keeping the draws of one feature
//! together. (The transparent phase orders by distance from the camera,
//! which lives in floating point on the unverified side.)

use vstd::prelude::*;
use vstd::multiset::Multiset;

verus! {

/// One draw that a feature submitted to a phase: which feature produced it
/// and the feature-local identifier of what to draw.
#[derive(Clone, Copy, Debug, PartialEq, Eq, Structural)]
pub struct SubmitNode {
    pub feature_index: u32,
    pub submit_node_id: u32,
}

/// Nodes stand in non-decreasing feature order: each feature's draws are
/// batched together.
pub open spec fn sorted_by_feature(s: Seq<SubmitNode>) -> bool {
    forall|i: int, j: int| 0 <= i < j < s.len() ==> s[i].feature_index <= s[j].feature_index
}

/// Inserting a node anywhere in a sequence adds exactly it to the contents.
proof fn lemma_insert_node_to_multiset(s: Seq<SubmitNode>, i: int, e: SubmitNode)
    requires
        0 <= i <= s.len(),
    ensures
        s.insert(i, e).to_multiset() == s.to_multiset().insert(e),
{
    broadcast use vstd::seq_lib::group_to_multiset_ensures;
    broadcast use vstd::multiset::group_multiset_axioms;

    let t = s.insert(i, e);
    s.insert_ensures(i, e);
    t.remove_ensures(i);
    assert(t.remove(i) =~= s);
    assert(t[i] == e);
    assert(t.remove(i).to_multiset() == t.to_multiset().remove(e));
    assert(t.contains(e));
    assert(t.to_multiset().count(e) > 0);
    assert(t.to_multiset() =~= s.to_multiset().insert(e));
}

/// Place one node into a feature-sorted list.
fn insert_by_feature(v: &mut Vec<SubmitNode>, e: SubmitNode)
    requires
        sorted_by_feature(old(v)@),
    ensures
        final (v)@.to_multiset() == old(v)@.to_multiset().insert(e),
        final (v)@.len() == old(v)@.len() + 1,
        sorted_by_feature(final (v)@),
{
    let mut idx: usize = 0;
    while idx < v.len() && v[idx].feature_index <= e.feature_index
        invariant
            idx <= v@.len(),
            *v == *old(v),
            sorted_by_feature(v@),
            forall|j: int| 0 <= j < idx ==> (#[trigger] v@[j]).feature_index <= e.feature_index,
        decreases v@.len() - idx,
    {
        idx = idx + 1;
    }
    proof {
        let s = v@;
        let t = s.insert(idx as int, e);
        s.insert_ensures(idx as int, e);
        lemma_insert_node_to_multiset(s, idx as int, e);
        assert forall|i: int, j: int|
            0 <= i < j < t.len() implies t[i].feature_index <= t[j].feature_index by {
            if i < idx && j < idx {
                assert(t[i] == s[i]);
                assert(t[j] == s[j]);
            } else if i < idx && j == idx {
                assert(t[i] == s[i]);
                assert(t[j] == e);
            } else if i < idx && j > idx {
                assert(t[i] == s[i]);
                assert(t[j] == s[j - 1]);
            } else if i == idx && j > idx {
                assert(t[i] == e);
                assert(t[j] == s[j - 1]);
            } else {
                assert(i > idx && j > idx);
                assert(t[i] == s[i - 1]);
                assert(t[j] == s[j - 1]);
            }
        }
    }
    v.insert(idx, e);
}

/// Sort submit nodes by feature index: the draws come out batched per
/// feature, and no draw appears or disappears.
fn sort_submit_nodes_by_feature(submit_nodes: Vec<SubmitNode>) -> (r: Vec<SubmitNode>)
    ensures
        r@.to_multiset() == submit_nodes@.to_multiset(),
        r@.len() == submit_nodes@.len(),
        sorted_by_feature(r@),
{
    let ghost orig: Seq<SubmitNode> = submit_nodes@;
    let mut src = submit_nodes;
    let mut out: Vec<SubmitNode> = Vec::new();
    proof {
        broadcast use vstd::multiset::group_multiset_axioms;

        assert(out@.to_multiset() =~= Multiset::<SubmitNode>::empty()) by {
            broadcast use vstd::seq_lib::group_to_multiset_ensures;

            assert(out@.to_multiset().len() == 0);
        }
        assert(out@.to_multiset().add(src@.to_multiset()) =~= orig.to_multiset());
    }
    while src.len() > 0
        invariant
            sorted_by_feature(out@),
            out@.to_multiset().add(src@.to_multiset()) == orig.to_multiset(),
            out@.len() + src@.len() == orig.len(),
        decreases src@.len(),
    {
        let ghost src0 = src@;
        let ghost out0 = out@;
        let e = src.pop().unwrap();
        proof {
            broadcast use vstd::seq_lib::group_to_multiset_ensures;
            broadcast use vstd::multiset::group_multiset_axioms;

            let last: int = src0.len() - 1;
            assert(src0.remove(last) =~= src@);
            assert(src@.to_multiset() == src0.to_multiset().remove(e));
            assert(src0.contains(e)) by {
                assert(src0[last] == e);
            }
            assert(src0.to_multiset().count(e) > 0);
        }
        insert_by_feature(&mut out, e);
        proof {
            broadcast use vstd::multiset::group_multiset_axioms;

            assert(out@.to_multiset().add(src@.to_multiset()) =~= orig.to_multiset()) by {
                assert(out@.to_multiset() == out0.to_multiset().insert(e));
                assert(src@.to_multiset() == src0.to_multiset().remove(e));
                assert(src0.to_multiset().count(e) > 0);
            }
        }
    }
    proof {
        broadcast use vstd::multiset::group_multiset_axioms;
        broadcast use vstd::seq_lib::group_to_multiset_ensures;

        assert(src@.to_multiset().len() == 0);
        assert(out@.to_multiset() =~= orig.to_multiset());
        assert(out@.to_multiset().len() == orig.to_multiset().len());
    }
    out
}

/// The phase that draws opaque geometry, before transparents and the UI.
pub struct OpaqueRenderPhase;

impl OpaqueRenderPhase {
    /// Draw order of the opaque phase: batched by feature.
    pub fn sort_submit_nodes(submit_nodes: Vec<SubmitNode>) -> (r: Vec<SubmitNode>)
        ensures
            r@.to_multiset() == submit_nodes@.to_multiset(),
            r@.len() == submit_nodes@.len(),
            sorted_by_feature(r@),
    {
        sort_submit_nodes_by_feature(submit_nodes)
    }

    /// The phase's name for diagnostics.
    pub fn render_phase_debug_name() -> (r: &'static str)
        ensures
            r@ == "OpaqueRenderPhase"@,
    {
        "OpaqueRenderPhase"
    }
}

/// The phase that draws before the UI, after the scene.
pub struct PreUiRenderPhase;

impl PreUiRenderPhase {
    /// Draw order of the pre-UI phase: batched by feature.
    pub fn sort_submit_nodes(submit_nodes: Vec<SubmitNode>) -> (r: Vec<SubmitNode>)
        ensures
            r@.to_multiset() == submit_nodes@.to_multiset(),
            r@.len() == submit_nodes@.len(),
            sorted_by_feature(r@),
    {
        sort_submit_nodes_by_feature(submit_nodes)
    }

    /// The phase's name for diagnostics.
    pub fn render_phase_debug_name() -> (r: &'static str)
        ensures
            r@ == "PreUiRenderPhase"@,
    {
        "PreUiRenderPhase"
    }
}

/// The phase that draws the UI last.
pub struct UiRenderPhase;

impl UiRenderPhase {
    /// Draw order of the UI phase: batched by feature.
    pub fn sort_submit_nodes(submit_nodes: Vec<SubmitNode>) -> (r: Vec<SubmitNode>)
        ensures
            r@.to_multiset() == submit_nodes@.to_multiset(),
            r@.len() == submit_nodes@.len(),
            sorted_by_feature(r@),
    {
        sort_submit_nodes_by_feature(submit_nodes)
    }

    /// The phase's name for diagnostics.
    pub fn render_phase_debug_name() -> (r: &'static str)
        ensures
            r@ == "UiRenderPhase"@,
    {
        "UiRenderPhase"
    }
}

/// The phase that draws transparent geometry back to front. Its order is by
/// distance from the camera, a floating-point key ordered on the unverified
/// side.
pub struct TransparentRenderPhase;

impl TransparentRenderPhase {
    /// The phase's name for diagnostics.
    pub fn render_phase_debug_name() -> (r: &'static str)
        ensures
            r@ == "TransparentRenderPhase"@,
    {
        "TransparentRenderPhase"
    }
}

} // verus!
