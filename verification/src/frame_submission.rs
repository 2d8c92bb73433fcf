//! The frame job on the render thread: recovery and submission order.
//!
//! The simulation thread hands each frame to the render thread, which
//! submits the frame's renderpasses in a fixed order. Before starting a new
//! frame, the previous frame's result decides whether to proceed, rebuild
//! the swapchain, or fail. The Vulkan work itself stays on the unverified
//! side; what is verified is the decisions and the order.

use vstd::prelude::*;

verus! {

/// The outcome codes a frame can end with, as the GPU API reports them.
#[derive(Clone, Copy, Debug, PartialEq, Eq, Structural)]
pub enum VkResultCode {
    Success,
    SuboptimalKhr,
    ErrorOutOfDateKhr,
    OtherError,
}

/// What to do before beginning a new frame.
#[derive(Clone, Copy, Debug, PartialEq, Eq, Structural)]
pub enum RecoveryAction {
    /// The previous frame is fine (or merely suboptimal): render.
    Proceed,
    /// The swapchain is out of date: rebuild it, then render.
    RebuildSwapchain,
    /// The previous frame failed in an unexpected way: stop with its error.
    Fail,
}

/// Decide what to do from the previous frame's result, if one is pending:
/// out-of-date rebuilds the swapchain, success and suboptimal proceed,
/// anything else fails.
pub fn begin_render_recovery(previous_frame_result: &Option<Result<(), VkResultCode>>) -> (r:
    RecoveryAction)
    ensures
        r == RecoveryAction::RebuildSwapchain <==> *previous_frame_result == Some(
            Err::<(), VkResultCode>(VkResultCode::ErrorOutOfDateKhr),
        ),
        r == RecoveryAction::Fail <==> *previous_frame_result == Some(
            Err::<(), VkResultCode>(VkResultCode::OtherError),
        ),
{
    match previous_frame_result {
        Some(result) => match result {
            Ok(_) => RecoveryAction::Proceed,
            Err(e) => match e {
                VkResultCode::ErrorOutOfDateKhr => RecoveryAction::RebuildSwapchain,
                VkResultCode::Success => RecoveryAction::Proceed,
                VkResultCode::SuboptimalKhr => RecoveryAction::Proceed,
                VkResultCode::OtherError => RecoveryAction::Fail,
            },
        },
        None => RecoveryAction::Proceed,
    }
}

/// The renderpasses of one frame, in submission order.
#[derive(Clone, Copy, Debug, PartialEq, Eq, Structural)]
pub enum FramePass {
    Opaque,
    Msaa,
    BloomExtract,
    BloomBlur,
    BloomCombine,
    Ui,
}

/// One command buffer to submit: which pass, and which of its prerecorded
/// buffers.
#[derive(Clone, Copy, Debug, PartialEq, Eq, Structural)]
pub struct PassSubmission {
    pub pass: FramePass,
    pub command_buffer_index: usize,
}

/// The fixed submission order of one frame: opaque, the MSAA resolve, the
/// bloom extract, ten blur passes ping-ponging between two buffers, the
/// bloom combine, and the UI last. All but the blur passes use the
/// swapchain image's own buffer.
pub fn frame_submission_order(present_index: usize) -> (r: Vec<PassSubmission>)
    ensures
        r@.len() == 15,
        r@[0] == (PassSubmission { pass: FramePass::Opaque, command_buffer_index: present_index }),
        r@[1] == (PassSubmission { pass: FramePass::Msaa, command_buffer_index: present_index }),
        r@[2] == (PassSubmission {
            pass: FramePass::BloomExtract,
            command_buffer_index: present_index,
        }),
        forall|j: int|
            0 <= j < 10 ==> #[trigger] r@[3 + j] == (PassSubmission {
                pass: FramePass::BloomBlur,
                command_buffer_index: (j % 2) as usize,
            }),
        r@[13] == (PassSubmission {
            pass: FramePass::BloomCombine,
            command_buffer_index: present_index,
        }),
        r@[14] == (PassSubmission { pass: FramePass::Ui, command_buffer_index: present_index }),
{
    let mut r: Vec<PassSubmission> = Vec::new();
    r.push(PassSubmission { pass: FramePass::Opaque, command_buffer_index: present_index });
    r.push(PassSubmission { pass: FramePass::Msaa, command_buffer_index: present_index });
    r.push(PassSubmission { pass: FramePass::BloomExtract, command_buffer_index: present_index });
    let mut j: usize = 0;
    while j < 10
        invariant
            j <= 10,
            r@.len() == 3 + j,
            r@[0] == (PassSubmission {
                pass: FramePass::Opaque,
                command_buffer_index: present_index,
            }),
            r@[1] == (PassSubmission {
                pass: FramePass::Msaa,
                command_buffer_index: present_index,
            }),
            r@[2] == (PassSubmission {
                pass: FramePass::BloomExtract,
                command_buffer_index: present_index,
            }),
            forall|m: int|
                0 <= m < j ==> #[trigger] r@[3 + m] == (PassSubmission {
                    pass: FramePass::BloomBlur,
                    command_buffer_index: (m % 2) as usize,
                }),
        decreases 10 - j,
    {
        r.push(PassSubmission { pass: FramePass::BloomBlur, command_buffer_index: j % 2 });
        j = j + 1;
    }
    r.push(PassSubmission { pass: FramePass::BloomCombine, command_buffer_index: present_index });
    r.push(PassSubmission { pass: FramePass::Ui, command_buffer_index: present_index });
    r
}

} // verus!
