//! Sprite render nodes: slab-allocated GPU-visible proxies.
//!
//! Each renderable sprite entity registers a render node and gets back a
//! stable handle, used for visibility queries until the node is
//! unregistered. The set reuses freed slots, so handles stay small and the
//! storage never shrinks; a registered node is never moved by other
//! registrations.

use vstd::prelude::*;

verus! {

/// The GPU-visible proxy of one sprite entity. The entity is carried as its
/// 64-bit identifier.
#[derive(Clone, Copy, Debug, PartialEq, Eq, Structural)]
pub struct SpriteRenderNode {
    pub entity: u64,
}

/// Stable handle of a registered sprite render node: its slot index.
#[derive(Clone, Copy, Debug, PartialEq, Eq, Structural)]
pub struct SpriteRenderNodeHandle(pub usize);

/// The slab of sprite render nodes: occupied slots hold nodes, freed slots
/// wait for reuse.
pub struct SpriteRenderNodeSet {
    slots: Vec<Option<SpriteRenderNode>>,
    free_slots: Vec<usize>,
}

impl SpriteRenderNodeSet {
    /// The nodes by slot, freed slots empty.
    pub closed spec fn view(&self) -> Seq<Option<SpriteRenderNode>> {
        self.slots@
    }

    /// Every freed slot is in range, empty, and listed once.
    pub closed spec fn wf(&self) -> bool {
        &&& forall|i: int|
            0 <= i < self.free_slots@.len() ==> (#[trigger] self.free_slots@[i]) < self.slots@.len()
                && self.slots@[self.free_slots@[i] as int] is None
        &&& forall|i: int, j: int|
            0 <= i < j < self.free_slots@.len() ==> self.free_slots@[i] != self.free_slots@[j]
    }

    /// A set with no nodes.
    pub fn new() -> (r: SpriteRenderNodeSet)
        ensures
            r.wf(),
            r.view().len() == 0,
    {
        SpriteRenderNodeSet { slots: Vec::new(), free_slots: Vec::new() }
    }

    /// Register a node: it lands in a free slot, or in a new one at the
    /// end; every other slot is untouched, and the handle addresses the
    /// node until it is unregistered.
    pub fn register_sprite(&mut self, node: SpriteRenderNode) -> (handle: SpriteRenderNodeHandle)
        requires
            old(self).wf(),
        ensures
            final (self).wf(),
            handle.0 < final (self).view().len(),
            final (self).view()[handle.0 as int] == Some(node),
            old(self).view().len() <= final (self).view().len(),
            forall|i: int|
                0 <= i < old(self).view().len() && i != handle.0 ==> final (self).view()[i] == old(
                    self,
                ).view()[i],
            handle.0 < old(self).view().len() ==> old(self).view()[handle.0 as int] is None,
    {
        let reused = self.free_slots.pop();
        match reused {
            Some(slot) => {
                proof {
                    assert(old(self).free_slots@[old(self).free_slots@.len() - 1] == slot);
                }
                self.slots.set(slot, Some(node));
                proof {
                    assert forall|i: int|
                        0 <= i < self.free_slots@.len() implies (
                    #[trigger] self.free_slots@[i]) < self.slots@.len()
                        && self.slots@[self.free_slots@[i] as int] is None by {
                        assert(self.free_slots@[i] == old(self).free_slots@[i]);
                        assert(self.free_slots@[i] != slot);
                    }
                }
                SpriteRenderNodeHandle(slot)
            }
            None => {
                let slot = self.slots.len();
                self.slots.push(Some(node));
                SpriteRenderNodeHandle(slot)
            }
        }
    }

    /// Unregister a node: its slot is emptied for reuse, every other slot
    /// is untouched.
    pub fn unregister_sprite(&mut self, handle: SpriteRenderNodeHandle)
        requires
            old(self).wf(),
            handle.0 < old(self).view().len(),
            old(self).view()[handle.0 as int] is Some,
        ensures
            final (self).wf(),
            final (self).view().len() == old(self).view().len(),
            final (self).view()[handle.0 as int] is None,
            forall|i: int|
                0 <= i < old(self).view().len() && i != handle.0 ==> final (self).view()[i] == old(
                    self,
                ).view()[i],
    {
        self.slots.set(handle.0, None);
        self.free_slots.push(handle.0);
        proof {
            assert forall|i: int, j: int|
                0 <= i < j < self.free_slots@.len() implies self.free_slots@[i]
                != self.free_slots@[j] by {
                if j == self.free_slots@.len() - 1 {
                    assert(self.free_slots@[j] == handle.0);
                    assert(self.free_slots@[i] == old(self).free_slots@[i]);
                    assert(old(self).view()[old(self).free_slots@[i] as int] is None);
                }
            }
        }
    }

    /// The number of slots ever allocated: the capacity visibility buffers
    /// are sized for.
    pub fn max_render_node_count(&self) -> (r: usize)
        ensures
            r == self.view().len(),
    {
        self.slots.len()
    }
}

} // verus!
