use vstd::prelude::*;

use crate::surface::Extent;

verus! {

/// What the library knows of a per-frame fence.
#[derive(Clone, Copy, Debug, PartialEq, Eq, Structural)]
pub enum FenceStatus {
    /// The fence is signalled: no GPU work of the slot is outstanding.
    Signaled,
    /// Reset, and no submission signals it yet.
    Unsignaled,
    /// A submission will signal it; it may already have.
    Pending,
}

/// The device objects of one per-frame slot, as raw handles.
#[derive(Clone, Copy, Debug, PartialEq, Eq, Structural)]
pub struct PerFrameResources {
    pub command_buffer: u64,
    pub rendering_finished_fence: u64,
    /// Handed to the window's acquire call, round-robin over the slots.
    /// Unused by the headset.
    pub image_acquired_semaphore: u64,
    /// Signalled by the window's submission and waited on by its present.
    /// Unused by the headset.
    pub rendering_finished_semaphore: u64,
}

/// The resources of one image slot and the state of its fence.
#[derive(Clone, Copy, Debug, PartialEq, Eq, Structural)]
pub struct FrameSlot {
    pub resources: PerFrameResources,
    pub fence: FenceStatus,
}

pub open spec fn fences_of(slots: Seq<FrameSlot>) -> Seq<FenceStatus> {
    slots.map_values(|s: FrameSlot| s.fence)
}

pub proof fn lemma_fences_update(slots: Seq<FrameSlot>, i: int, s: FrameSlot)
    requires
        0 <= i < slots.len(),
    ensures
        fences_of(slots.update(i, s)) == fences_of(slots).update(i, s.fence),
{
    assert(fences_of(slots.update(i, s)) =~= fences_of(slots).update(i, s.fence));
}

/// The handles one draw of the mesh needs, owned by the caller.
#[derive(Clone, Copy, Debug, PartialEq, Eq, Structural)]
pub struct DrawInputs {
    pub pipeline_layout: u64,
    pub pipeline: u64,
    pub vertex_buffer: u64,
    pub index_buffer: u64,
    pub index_count: u32,
    pub descriptor_set: u64,
}

/// One device, swapchain or runtime call, in the order the caller must make
/// it. `slot` names the per-frame slot whose command buffer or fence is used.
#[derive(Clone, Copy, Debug, PartialEq, Eq, Structural)]
pub enum Command {
    /// Block without timeout until the slot's fence is signalled, then reset it.
    WaitAndResetFence { slot: usize },
    ResetCommandBuffer { slot: usize },
    BeginCommandBuffer { slot: usize },
    /// Clears colour to black, depth to 1.0 and stencil to 0.
    BeginRenderPass { slot: usize, framebuffer: usize, extent: Extent },
    BindPipeline { slot: usize, pipeline: u64 },
    SetViewport { slot: usize, extent: Extent },
    SetScissor { slot: usize, extent: Extent },
    BindMesh { slot: usize, vertex_buffer: u64, index_buffer: u64 },
    BindDescriptorSet { slot: usize, layout: u64, set: u64 },
    DrawIndexed { slot: usize, index_count: u32 },
    EndRenderPass { slot: usize },
    EndCommandBuffer { slot: usize },
    /// Submits the slot's command buffer and signals its fence. A semaphore
    /// of zero means none; the wait stage is colour-attachment output.
    Submit { slot: usize, wait_semaphore: u64, signal_semaphore: u64 },
    Present { image_index: u32, wait_semaphore: u64 },
    /// Ask the runtime for the next headset image.
    AcquireImage,
    /// Wait without timeout until the runtime's image can be written.
    WaitImage,
    ReleaseImage,
    /// Sample head and eye poses for the display time.
    LocateViews { display_time: i64 },
    /// End the runtime frame. With `view_count` zero the layer list is
    /// empty; else it holds one projection layer whose view `i` shows array
    /// layer `i` of the image, over the whole extent.
    EndFrame { display_time: i64, view_count: u32, extent: Extent },
    /// Block until the queue has finished all submitted work.
    WaitIdle,
    /// Destroy the window swapchain, its views, framebuffers and depth image.
    DestroySwapchain,
    /// Build the window swapchain and its attachments.
    CreateSwapchain { extent: Extent, image_count: u32 },
    DestroyFrameResources { resources: PerFrameResources },
}

/// What stops a frame.
#[derive(Clone, Copy, Debug, PartialEq, Eq, Structural)]
pub enum FrameError {
    /// The window surface changed: resize, then retry the frame.
    OutOfDate,
    /// A device or runtime call failed with this raw result code.
    Device { code: i32 },
    /// The image index lies outside the swapchain.
    ImageIndexOutOfRange,
    /// The runtime asked not to render this frame.
    NotRendering,
    /// A headset step came out of order.
    OutOfOrder,
    /// Not as many new per-frame resources as the new image count needs.
    ResourceCountMismatch,
    /// A target needs at least one image.
    NoImages,
}

impl FrameError {
    /// Whether the frame can be retried after a resize.
    pub fn needs_resize(&self) -> (r: bool)
        ensures
            r <==> *self == FrameError::OutOfDate,
    {
        match self {
            FrameError::OutOfDate => true,
            _ => false,
        }
    }
}

/// How a swapchain call (acquire or present) came back.
#[derive(Clone, Copy, Debug, PartialEq, Eq, Structural)]
pub enum SurfaceStatus {
    Success,
    Suboptimal,
    OutOfDate,
    Failed { code: i32 },
}

pub open spec fn surface_result_spec(s: SurfaceStatus) -> Result<(), FrameError> {
    match s {
        SurfaceStatus::Success => Ok(()),
        SurfaceStatus::Suboptimal => Ok(()),
        SurfaceStatus::OutOfDate => Err(FrameError::OutOfDate),
        SurfaceStatus::Failed { code } => Err(FrameError::Device { code }),
    }
}

/// A suboptimal swapchain still renders; an out-of-date one asks for a
/// resize; any other failure ends the frame.
pub fn surface_result(s: SurfaceStatus) -> (r: Result<(), FrameError>)
    ensures
        r == surface_result_spec(s),
{
    match s {
        SurfaceStatus::Success => Ok(()),
        SurfaceStatus::Suboptimal => Ok(()),
        SurfaceStatus::OutOfDate => Err(FrameError::OutOfDate),
        SurfaceStatus::Failed { code } => Err(FrameError::Device { code }),
    }
}

/// The slot whose command buffer a command records into or resets.
pub open spec fn recording_slot(c: Command) -> Option<usize> {
    match c {
        Command::ResetCommandBuffer { slot } => Some(slot),
        Command::BeginCommandBuffer { slot } => Some(slot),
        Command::BeginRenderPass { slot, .. } => Some(slot),
        Command::BindPipeline { slot, .. } => Some(slot),
        Command::SetViewport { slot, .. } => Some(slot),
        Command::SetScissor { slot, .. } => Some(slot),
        Command::BindMesh { slot, .. } => Some(slot),
        Command::BindDescriptorSet { slot, .. } => Some(slot),
        Command::DrawIndexed { slot, .. } => Some(slot),
        Command::EndRenderPass { slot } => Some(slot),
        Command::EndCommandBuffer { slot } => Some(slot),
        _ => None,
    }
}

pub open spec fn settle(s: FenceStatus) -> FenceStatus {
    match s {
        FenceStatus::Pending => FenceStatus::Signaled,
        _ => s,
    }
}

/// The effect of one command on the fences of a target, or `None` where the
/// command is unsafe: waiting on a fence nothing will signal, touching a
/// command buffer whose submission may still run, submitting with a fence
/// that is not reset.
pub open spec fn step(f: Seq<FenceStatus>, c: Command) -> Option<Seq<FenceStatus>> {
    match c {
        Command::WaitAndResetFence { slot } => {
            if slot < f.len() && f[slot as int] != FenceStatus::Unsignaled {
                Some(f.update(slot as int, FenceStatus::Unsignaled))
            } else {
                None
            }
        },
        Command::Submit { slot, .. } => {
            if slot < f.len() && f[slot as int] == FenceStatus::Unsignaled {
                Some(f.update(slot as int, FenceStatus::Pending))
            } else {
                None
            }
        },
        Command::WaitIdle => Some(f.map_values(|s: FenceStatus| settle(s))),
        _ => match recording_slot(c) {
            Some(slot) => {
                if slot < f.len() && f[slot as int] != FenceStatus::Pending {
                    Some(f)
                } else {
                    None
                }
            },
            None => Some(f),
        },
    }
}

/// Runs a list of commands on the fence model, from the first.
pub open spec fn run(f: Seq<FenceStatus>, cmds: Seq<Command>) -> Option<Seq<FenceStatus>>
    decreases cmds.len(),
{
    if cmds.len() == 0 {
        Some(f)
    } else {
        match step(f, cmds[0]) {
            Some(g) => run(g, cmds.skip(1)),
            None => None,
        }
    }
}

pub open spec fn then_run(r: Option<Seq<FenceStatus>>, cmds: Seq<Command>) -> Option<Seq<FenceStatus>> {
    match r {
        Some(g) => run(g, cmds),
        None => None,
    }
}

pub proof fn lemma_run_append(f: Seq<FenceStatus>, a: Seq<Command>, b: Seq<Command>)
    ensures
        run(f, a + b) == then_run(run(f, a), b),
    decreases a.len(),
{
    if a.len() == 0 {
        assert(a + b =~= b);
    } else {
        assert((a + b)[0] == a[0]);
        assert((a + b).skip(1) =~= a.skip(1) + b);
        match step(f, a[0]) {
            Some(g) => lemma_run_append(g, a.skip(1), b),
            None => {},
        }
    }
}

pub proof fn lemma_run_single(f: Seq<FenceStatus>, c: Command)
    ensures
        run(f, seq![c]) == step(f, c),
{
    assert(seq![c].skip(1) =~= Seq::<Command>::empty());
    match step(f, c) {
        Some(g) => {
            assert(run(g, Seq::<Command>::empty()) == Some(g));
        },
        None => {},
    }
}

/// A command that leaves the fences of a target alone and may run while the
/// command buffer of `slot` is not in flight.
pub open spec fn neutral_at(c: Command, slot: usize) -> bool {
    match c {
        Command::WaitAndResetFence { .. } => false,
        Command::Submit { .. } => false,
        Command::WaitIdle => false,
        _ => match recording_slot(c) {
            Some(s) => s == slot,
            None => true,
        },
    }
}

pub proof fn lemma_run_neutral(f: Seq<FenceStatus>, cmds: Seq<Command>, slot: usize)
    requires
        slot < f.len(),
        f[slot as int] != FenceStatus::Pending,
        forall|i: int| 0 <= i < cmds.len() ==> neutral_at(#[trigger] cmds[i], slot),
    ensures
        run(f, cmds) == Some(f),
    decreases cmds.len(),
{
    if cmds.len() > 0 {
        assert(neutral_at(cmds[0], slot));
        assert(step(f, cmds[0]) == Some(f));
        assert forall|i: int| 0 <= i < cmds.skip(1).len() implies neutral_at(#[trigger] cmds.skip(1)[i], slot) by {
            assert(cmds.skip(1)[i] == cmds[i + 1]);
        }
        lemma_run_neutral(f, cmds.skip(1), slot);
    }
}

/// The commands that record one draw of the mesh into the command buffer of
/// `slot`, rendering to `framebuffer`. The window sets viewport and scissor
/// while recording, so that a resize needs no new pipeline.
pub open spec fn record_pass_spec(
    slot: usize,
    framebuffer: usize,
    extent: Extent,
    draw: DrawInputs,
    dynamic_viewport: bool,
) -> Seq<Command> {
    let head = seq![
        Command::ResetCommandBuffer { slot },
        Command::BeginCommandBuffer { slot },
        Command::BeginRenderPass { slot, framebuffer, extent },
        Command::BindPipeline { slot, pipeline: draw.pipeline },
    ];
    let viewport = if dynamic_viewport {
        seq![Command::SetViewport { slot, extent }, Command::SetScissor { slot, extent }]
    } else {
        Seq::<Command>::empty()
    };
    let tail = seq![
        Command::BindMesh { slot, vertex_buffer: draw.vertex_buffer, index_buffer: draw.index_buffer },
        Command::BindDescriptorSet { slot, layout: draw.pipeline_layout, set: draw.descriptor_set },
        Command::DrawIndexed { slot, index_count: draw.index_count },
        Command::EndRenderPass { slot },
        Command::EndCommandBuffer { slot },
    ];
    head + viewport + tail
}

pub proof fn lemma_record_pass_neutral(
    slot: usize,
    framebuffer: usize,
    extent: Extent,
    draw: DrawInputs,
    dynamic_viewport: bool,
)
    ensures
        forall|i: int|
            0 <= i < record_pass_spec(slot, framebuffer, extent, draw, dynamic_viewport).len() ==> neutral_at(
                #[trigger] record_pass_spec(slot, framebuffer, extent, draw, dynamic_viewport)[i],
                slot,
            ),
{
}

/// Appends the commands of `record_pass_spec` to `cmds`.
pub fn record_pass(
    cmds: &mut Vec<Command>,
    slot: usize,
    framebuffer: usize,
    extent: Extent,
    draw: DrawInputs,
    dynamic_viewport: bool,
)
    ensures
        final(cmds)@ == old(cmds)@ + record_pass_spec(slot, framebuffer, extent, draw, dynamic_viewport),
{
    cmds.push(Command::ResetCommandBuffer { slot });
    cmds.push(Command::BeginCommandBuffer { slot });
    cmds.push(Command::BeginRenderPass { slot, framebuffer, extent });
    cmds.push(Command::BindPipeline { slot, pipeline: draw.pipeline });
    if dynamic_viewport {
        cmds.push(Command::SetViewport { slot, extent });
        cmds.push(Command::SetScissor { slot, extent });
    }
    cmds.push(Command::BindMesh { slot, vertex_buffer: draw.vertex_buffer, index_buffer: draw.index_buffer });
    cmds.push(Command::BindDescriptorSet { slot, layout: draw.pipeline_layout, set: draw.descriptor_set });
    cmds.push(Command::DrawIndexed { slot, index_count: draw.index_count });
    cmds.push(Command::EndRenderPass { slot });
    cmds.push(Command::EndCommandBuffer { slot });
    assert(cmds@ =~= old(cmds)@ + record_pass_spec(slot, framebuffer, extent, draw, dynamic_viewport));
}

} // verus!
