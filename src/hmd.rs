use vstd::prelude::*;

use crate::frame::{
    fences_of, lemma_fences_update, lemma_record_pass_neutral, lemma_run_append, lemma_run_neutral,
    lemma_run_single, neutral_at, record_pass, record_pass_spec, recording_slot, run, Command,
    DrawInputs, FenceStatus, FrameError, FrameSlot, PerFrameResources,
};
use crate::surface::Extent;

verus! {

/// Number of views, one per eye, in the headset's projection layer.
pub const HMD_VIEW_COUNT: u32 = 2;

/// What the runtime's frame wait returns for one headset frame.
#[derive(Clone, Copy, Debug, PartialEq, Eq, Structural)]
pub struct FrameState {
    /// Predicted display time, in the runtime's nanoseconds.
    pub predicted_display_time: i64,
    pub should_render: bool,
}

/// One headset frame: the acquired image, if the runtime asked for one.
#[derive(Clone, Copy, Debug, PartialEq, Eq, Structural)]
pub struct PreRenderInfoHMD {
    pub image_index: Option<u32>,
    pub frame_state: FrameState,
}

/// The headset target: one slot per runtime swapchain image, the image
/// extent, and the slot recorded but not yet submitted, if any.
pub struct HmdFrames {
    slots: Vec<FrameSlot>,
    extent: Extent,
    recorded: Option<usize>,
}

pub struct HmdModel {
    pub slots: Seq<FrameSlot>,
    pub extent: Extent,
    pub recorded: Option<nat>,
}

impl View for HmdFrames {
    type V = HmdModel;

    closed spec fn view(&self) -> HmdModel {
        HmdModel {
            slots: self.slots@,
            extent: self.extent,
            recorded: match self.recorded {
                Some(i) => Some(i as nat),
                None => None,
            },
        }
    }
}

impl HmdModel {
    /// Only the slot recorded and not yet submitted has a reset fence that
    /// nothing will signal.
    pub open spec fn wf(&self) -> bool {
        &&& 0 < self.slots.len() <= u32::MAX
        &&& self.recorded matches Some(i) ==> i < self.slots.len()
        &&& forall|i: int|
            0 <= i < self.slots.len() ==> (#[trigger] self.slots[i].fence == FenceStatus::Unsignaled
                <==> self.recorded == Some(i as nat))
    }
}

/// After the frame wait and begin: acquire an image, or, where the runtime
/// asks not to render, end the frame at once with an empty layer list.
pub open spec fn pre_render_hmd_commands(m: HmdModel, frame_state: FrameState) -> Seq<Command> {
    if frame_state.should_render {
        seq![Command::AcquireImage]
    } else {
        seq![Command::EndFrame { display_time: frame_state.predicted_display_time, view_count: 0, extent: m.extent }]
    }
}

pub open spec fn record_hmd_outcome(m: HmdModel, info: PreRenderInfoHMD) -> Result<(), FrameError> {
    match info.image_index {
        None => Err(FrameError::NotRendering),
        Some(i) => if m.recorded is Some {
            Err(FrameError::OutOfOrder)
        } else if i >= m.slots.len() {
            Err(FrameError::ImageIndexOutOfRange)
        } else {
            Ok(())
        },
    }
}

/// Wait for the runtime's image, then for the slot's previous use, then
/// record one multiview pass over both eyes.
pub open spec fn record_hmd_commands(m: HmdModel, i: u32, draw: DrawInputs) -> Seq<Command> {
    seq![Command::WaitImage, Command::WaitAndResetFence { slot: i as usize }] + record_pass_spec(
        i as usize,
        i as usize,
        m.extent,
        draw,
        false,
    )
}

pub open spec fn after_record_hmd(m: HmdModel, i: u32) -> HmdModel {
    HmdModel {
        slots: m.slots.update(i as int, FrameSlot { fence: FenceStatus::Unsignaled, ..m.slots[i as int] }),
        recorded: Some(i as nat),
        ..m
    }
}

pub open spec fn submit_hmd_outcome(m: HmdModel, info: PreRenderInfoHMD) -> Result<(), FrameError> {
    match info.image_index {
        None => Err(FrameError::NotRendering),
        Some(i) => if m.recorded == Some(i as nat) {
            Ok(())
        } else {
            Err(FrameError::OutOfOrder)
        },
    }
}

/// Submit with no semaphores, release the image, sample the poses as late
/// as possible, and end the frame with one view per eye.
pub open spec fn submit_hmd_commands(m: HmdModel, i: u32, frame_state: FrameState) -> Seq<Command> {
    let t = frame_state.predicted_display_time;
    seq![
        Command::Submit { slot: i as usize, wait_semaphore: 0, signal_semaphore: 0 },
        Command::ReleaseImage,
        Command::LocateViews { display_time: t },
        Command::EndFrame { display_time: t, view_count: HMD_VIEW_COUNT, extent: m.extent },
    ]
}

pub open spec fn after_submit_hmd(m: HmdModel, i: u32) -> HmdModel {
    HmdModel {
        slots: m.slots.update(i as int, FrameSlot { fence: FenceStatus::Pending, ..m.slots[i as int] }),
        recorded: None,
        ..m
    }
}

pub open spec fn is_fence_or_draw(c: Command) -> bool {
    match c {
        Command::WaitAndResetFence { .. } => true,
        Command::Submit { .. } => true,
        Command::DrawIndexed { .. } => true,
        _ => false,
    }
}

/// Raw runtime result: the session is not running.
pub const XR_ERROR_SESSION_NOT_RUNNING: i32 = -16;

pub open spec fn runtime_result_spec(code: i32, shutting_down: bool) -> Result<(), FrameError> {
    if code >= 0 {
        Ok(())
    } else if code == XR_ERROR_SESSION_NOT_RUNNING && shutting_down {
        Ok(())
    } else {
        Err(FrameError::Device { code })
    }
}

/// How a runtime call's raw result affects the frame. Success codes pass;
/// a session that is not running is expected while shutting down; every
/// other failure ends the frame.
pub fn runtime_result(code: i32, shutting_down: bool) -> (r: Result<(), FrameError>)
    ensures
        r == runtime_result_spec(code, shutting_down),
{
    if code >= 0 {
        Ok(())
    } else if code == XR_ERROR_SESSION_NOT_RUNNING && shutting_down {
        Ok(())
    } else {
        Err(FrameError::Device { code })
    }
}

/// What the runtime recommends for one view of the stereo configuration.
#[derive(Clone, Copy, Debug, PartialEq, Eq, Structural)]
pub struct ViewConfigurationView {
    pub recommended_image_rect_width: u32,
    pub recommended_image_rect_height: u32,
}

/// Why the runtime's headset setup cannot be used.
#[derive(Clone, Copy, Debug, PartialEq, Eq, Structural)]
pub enum SetupError {
    /// The stereo configuration does not have exactly two views.
    ViewCountNotTwo,
    /// The two views recommend different image sizes.
    UnequalViewResolution,
    /// The runtime supports none of the candidate swapchain formats.
    NoSupportedFormat,
}

pub open spec fn resolution_spec(views: Seq<ViewConfigurationView>) -> Result<Extent, SetupError> {
    if views.len() != 2 {
        Err(SetupError::ViewCountNotTwo)
    } else if views[0] != views[1] {
        Err(SetupError::UnequalViewResolution)
    } else {
        Ok(Extent { width: views[0].recommended_image_rect_width, height: views[0].recommended_image_rect_height })
    }
}

/// The headset image extent: both eyes share one image with two array
/// layers, so both views must recommend the same size.
pub fn get_resolution(views: &Vec<ViewConfigurationView>) -> (r: Result<Extent, SetupError>)
    ensures
        r == resolution_spec(views@),
{
    if views.len() != 2 {
        return Err(SetupError::ViewCountNotTwo);
    }
    let a = views[0];
    let b = views[1];
    if a.recommended_image_rect_width != b.recommended_image_rect_width
        || a.recommended_image_rect_height != b.recommended_image_rect_height
    {
        return Err(SetupError::UnequalViewResolution);
    }
    Ok(Extent { width: a.recommended_image_rect_width, height: a.recommended_image_rect_height })
}

/// The first candidate format that the runtime's swapchains support.
/// Formats are raw values, as the runtime reports them.
pub fn find_swapchain_format(candidates: &Vec<u32>, supported: &Vec<u32>) -> (r: Result<u32, SetupError>)
    ensures
        match r {
            Ok(f) => exists|i: int|
                0 <= i < candidates@.len() && candidates@[i] == f && supported@.contains(f)
                    && forall|j: int| 0 <= j < i ==> !supported@.contains(#[trigger] candidates@[j]),
            Err(e) => e == SetupError::NoSupportedFormat && forall|j: int|
                0 <= j < candidates@.len() ==> !supported@.contains(#[trigger] candidates@[j]),
        },
{
    let mut i: usize = 0;
    while i < candidates.len()
        invariant
            i <= candidates@.len(),
            forall|j: int| 0 <= j < i ==> !supported@.contains(#[trigger] candidates@[j]),
        decreases candidates@.len() - i,
    {
        let wanted = candidates[i];
        let mut k: usize = 0;
        while k < supported.len()
            invariant
                i < candidates@.len(),
                forall|j: int| 0 <= j < i ==> !supported@.contains(#[trigger] candidates@[j]),
                k <= supported@.len(),
                wanted == candidates@[i as int],
                forall|q: int| 0 <= q < k ==> supported@[q] != wanted,
            decreases supported@.len() - k,
        {
            if supported[k] == wanted {
                proof {
                    assert(supported@[k as int] == wanted);
                    assert(supported@.contains(wanted));
                    assert(0 <= i < candidates@.len() && candidates@[i as int] == wanted);
                }
                return Ok(wanted);
            }
            k += 1;
        }
        proof {
            assert(!supported@.contains(wanted));
        }
        i += 1;
    }
    Err(SetupError::NoSupportedFormat)
}

impl HmdFrames {
    pub open spec fn wf(&self) -> bool {
        self@.wf()
    }

    /// The headset target over `resources`, one per runtime swapchain image,
    /// with images of size `extent`. Fences were created signalled.
    pub fn new(resources: Vec<PerFrameResources>, extent: Extent) -> (r: Result<HmdFrames, FrameError>)
        ensures
            (resources@.len() == 0 || resources@.len() > u32::MAX) ==> r == Err::<HmdFrames, FrameError>(
                FrameError::NoImages,
            ),
            (0 < resources@.len() <= u32::MAX) ==> r is Ok,
            r matches Ok(h) ==> {
                &&& h.wf()
                &&& h@.extent == extent
                &&& h@.recorded is None
                &&& h@.slots.len() == resources@.len()
                &&& forall|i: int|
                    0 <= i < resources@.len() ==> #[trigger] h@.slots[i] == (FrameSlot {
                        resources: resources@[i],
                        fence: FenceStatus::Signaled,
                    })
            },
    {
        if resources.len() == 0 || resources.len() > u32::MAX as usize {
            return Err(FrameError::NoImages);
        }
        let mut slots: Vec<FrameSlot> = Vec::new();
        let mut i: usize = 0;
        while i < resources.len()
            invariant
                i <= resources@.len(),
                slots@.len() == i,
                forall|k: int|
                    0 <= k < i ==> #[trigger] slots@[k] == (FrameSlot {
                        resources: resources@[k],
                        fence: FenceStatus::Signaled,
                    }),
            decreases resources@.len() - i,
        {
            slots.push(FrameSlot { resources: resources[i], fence: FenceStatus::Signaled });
            i += 1;
        }
        Ok(HmdFrames { slots, extent, recorded: None })
    }

    /// Number of runtime swapchain images, which is the number of slots.
    pub fn get_image_count_hmd(&self) -> (r: u32)
        requires
            self.wf(),
        ensures
            r == self@.slots.len(),
    {
        self.slots.len() as u32
    }

    /// The extent of each eye's image.
    pub fn extent(&self) -> (r: Extent)
        ensures
            r == self@.extent,
    {
        self.extent
    }

    /// The resources of slot `slot`, if there is one.
    pub fn resources(&self, slot: usize) -> (r: Option<PerFrameResources>)
        ensures
            slot < self@.slots.len() ==> r == Some(self@.slots[slot as int].resources),
            slot >= self@.slots.len() ==> r is None,
    {
        if slot < self.slots.len() {
            Some(self.slots[slot].resources)
        } else {
            None
        }
    }

    /// The state of the fence of slot `slot`, if there is one.
    pub fn fence_status(&self, slot: usize) -> (r: Option<FenceStatus>)
        ensures
            slot < self@.slots.len() ==> r == Some(self@.slots[slot as int].fence),
            slot >= self@.slots.len() ==> r is None,
    {
        if slot < self.slots.len() {
            Some(self.slots[slot].fence)
        } else {
            None
        }
    }

    /// What follows the runtime's frame wait and frame begin. Not rendering
    /// is a normal outcome: the frame ends with no layers, and no fence is
    /// waited on or signalled.
    pub fn pre_render_hmd(&self, frame_state: FrameState) -> (r: Vec<Command>)
        ensures
            r@ == pre_render_hmd_commands(self@, frame_state),
    {
        let mut cmds: Vec<Command> = Vec::new();
        if frame_state.should_render {
            cmds.push(Command::AcquireImage);
        } else {
            cmds.push(
                Command::EndFrame {
                    display_time: frame_state.predicted_display_time,
                    view_count: 0,
                    extent: self.extent,
                },
            );
        }
        proof {
            assert(cmds@ =~= pre_render_hmd_commands(self@, frame_state));
        }
        cmds
    }

    /// The commands that record the headset frame into its slot.
    pub fn record_hmd(&mut self, info: PreRenderInfoHMD, draw: DrawInputs) -> (r: Result<Vec<Command>, FrameError>)
        requires
            old(self).wf(),
        ensures
            final(self).wf(),
            record_hmd_outcome(old(self)@, info) matches Err(e) ==> r == Err::<Vec<Command>, FrameError>(e)
                && final(self)@ == old(self)@,
            record_hmd_outcome(old(self)@, info) is Ok ==> r is Ok,
            r matches Ok(cmds) ==> {
                let i = info.image_index->Some_0;
                &&& info.image_index is Some
                &&& cmds@ == record_hmd_commands(old(self)@, i, draw)
                &&& final(self)@ == after_record_hmd(old(self)@, i)
                &&& run(fences_of(old(self)@.slots), cmds@) == Some(fences_of(final(self)@.slots))
            },
    {
        let i = match info.image_index {
            None => {
                return Err(FrameError::NotRendering);
            },
            Some(i) => i,
        };
        if self.recorded.is_some() {
            return Err(FrameError::OutOfOrder);
        }
        if i as usize >= self.slots.len() {
            return Err(FrameError::ImageIndexOutOfRange);
        }
        let s = i as usize;
        let mut cmds: Vec<Command> = Vec::new();
        cmds.push(Command::WaitImage);
        cmds.push(Command::WaitAndResetFence { slot: s });
        record_pass(&mut cmds, s, s, self.extent, draw, false);
        proof {
            assert(cmds@ =~= record_hmd_commands(self@, i, draw));
            lemma_record_hmd_safe(self@, i, draw);
        }
        let slot = FrameSlot { resources: self.slots[s].resources, fence: FenceStatus::Unsignaled };
        self.slots.set(s, slot);
        self.recorded = Some(s);
        proof {
            assert(self@.slots =~= after_record_hmd(old(self)@, i).slots);
        }
        Ok(cmds)
    }

    /// The commands that submit the recorded headset frame and hand its
    /// image to the runtime's compositor.
    pub fn submit_hmd(&mut self, info: PreRenderInfoHMD) -> (r: Result<Vec<Command>, FrameError>)
        requires
            old(self).wf(),
        ensures
            final(self).wf(),
            submit_hmd_outcome(old(self)@, info) matches Err(e) ==> r == Err::<Vec<Command>, FrameError>(e)
                && final(self)@ == old(self)@,
            submit_hmd_outcome(old(self)@, info) is Ok ==> r is Ok,
            r matches Ok(cmds) ==> {
                let i = info.image_index->Some_0;
                &&& info.image_index is Some
                &&& cmds@ == submit_hmd_commands(old(self)@, i, info.frame_state)
                &&& final(self)@ == after_submit_hmd(old(self)@, i)
                &&& run(fences_of(old(self)@.slots), cmds@) == Some(fences_of(final(self)@.slots))
            },
    {
        let i = match info.image_index {
            None => {
                return Err(FrameError::NotRendering);
            },
            Some(i) => i,
        };
        match self.recorded {
            Some(s) => {
                if s != i as usize {
                    return Err(FrameError::OutOfOrder);
                }
            },
            None => {
                return Err(FrameError::OutOfOrder);
            },
        }
        let s = i as usize;
        let t = info.frame_state.predicted_display_time;
        let mut cmds: Vec<Command> = Vec::new();
        cmds.push(Command::Submit { slot: s, wait_semaphore: 0, signal_semaphore: 0 });
        cmds.push(Command::ReleaseImage);
        cmds.push(Command::LocateViews { display_time: t });
        cmds.push(Command::EndFrame { display_time: t, view_count: HMD_VIEW_COUNT, extent: self.extent });
        proof {
            assert(cmds@ =~= submit_hmd_commands(self@, i, info.frame_state));
            lemma_submit_hmd_safe(self@, i, info.frame_state);
        }
        let slot = FrameSlot { resources: self.slots[s].resources, fence: FenceStatus::Pending };
        self.slots.set(s, slot);
        self.recorded = None;
        proof {
            assert(self@.slots =~= after_submit_hmd(old(self)@, i).slots);
        }
        Ok(cmds)
    }
}

proof fn lemma_record_hmd_safe(m: HmdModel, i: u32, draw: DrawInputs)
    requires
        m.wf(),
        m.recorded is None,
        i < m.slots.len(),
    ensures
        run(fences_of(m.slots), record_hmd_commands(m, i, draw)) == Some(fences_of(after_record_hmd(m, i).slots)),
        after_record_hmd(m, i).wf(),
{
    let s = i as usize;
    let f = fences_of(m.slots);
    let f1 = f.update(s as int, FenceStatus::Unsignaled);
    let head = seq![Command::WaitImage, Command::WaitAndResetFence { slot: s }];
    let rec = record_pass_spec(s, s, m.extent, draw, false);
    assert(record_hmd_commands(m, i, draw) =~= head + rec);
    assert(m.slots[s as int].fence != FenceStatus::Unsignaled);
    lemma_run_single(f, Command::WaitImage);
    lemma_run_single(f, Command::WaitAndResetFence { slot: s });
    lemma_run_append(f, seq![Command::WaitImage], seq![Command::WaitAndResetFence { slot: s }]);
    assert(head =~= seq![Command::WaitImage] + seq![Command::WaitAndResetFence { slot: s }]);
    lemma_record_pass_neutral(s, s, m.extent, draw, false);
    lemma_run_neutral(f1, rec, s);
    lemma_run_append(f, head, rec);
    lemma_fences_update(m.slots, s as int, FrameSlot { fence: FenceStatus::Unsignaled, ..m.slots[s as int] });
    let m1 = after_record_hmd(m, i);
    assert forall|k: int| 0 <= k < m1.slots.len() implies (#[trigger] m1.slots[k].fence
        == FenceStatus::Unsignaled <==> m1.recorded == Some(k as nat)) by {
        if k != s {
            assert(m.slots[k].fence == FenceStatus::Unsignaled <==> m.recorded == Some(k as nat));
        }
    }
}

proof fn lemma_submit_hmd_safe(m: HmdModel, i: u32, frame_state: FrameState)
    requires
        m.wf(),
        m.recorded == Some(i as nat),
    ensures
        run(fences_of(m.slots), submit_hmd_commands(m, i, frame_state)) == Some(
            fences_of(after_submit_hmd(m, i).slots),
        ),
        after_submit_hmd(m, i).wf(),
{
    let s = i as usize;
    let f = fences_of(m.slots);
    let f1 = f.update(s as int, FenceStatus::Pending);
    let cmds = submit_hmd_commands(m, i, frame_state);
    let first = seq![cmds[0]];
    let rest = cmds.skip(1);
    assert(cmds =~= first + rest);
    assert(m.slots[s as int].fence == FenceStatus::Unsignaled);
    lemma_run_single(f, cmds[0]);
    assert forall|k: int| 0 <= k < rest.len() implies neutral_at(#[trigger] rest[k], s) by {
        assert(rest[k] == cmds[k + 1]);
    }
    assert(f1[s as int] == FenceStatus::Pending);
    lemma_run_neutral_any(f1, rest);
    lemma_run_append(f, first, rest);
    lemma_fences_update(m.slots, s as int, FrameSlot { fence: FenceStatus::Pending, ..m.slots[s as int] });
    let m1 = after_submit_hmd(m, i);
    assert forall|k: int| 0 <= k < m1.slots.len() implies (#[trigger] m1.slots[k].fence
        == FenceStatus::Unsignaled <==> m1.recorded == Some(k as nat)) by {
        if k != s {
            assert(m.slots[k].fence == FenceStatus::Unsignaled <==> m.recorded == Some(k as nat));
        }
    }
}

pub open spec fn touches_no_slot(c: Command) -> bool {
    recording_slot(c) is None && !is_fence_or_draw(c) && c != Command::WaitIdle
}

proof fn lemma_run_neutral_any(f: Seq<FenceStatus>, cmds: Seq<Command>)
    requires
        forall|k: int| 0 <= k < cmds.len() ==> touches_no_slot(#[trigger] cmds[k]),
    ensures
        run(f, cmds) == Some(f),
    decreases cmds.len(),
{
    if cmds.len() > 0 {
        assert(touches_no_slot(cmds[0]));
        assert forall|k: int| 0 <= k < cmds.skip(1).len() implies touches_no_slot(#[trigger] cmds.skip(1)[k]) by {
            assert(cmds.skip(1)[k] == cmds[k + 1]);
        }
        lemma_run_neutral_any(f, cmds.skip(1));
    }
}

/// The commands of one headset frame after the frame wait: acquire, record
/// and submit when the runtime asks for rendering, else only the empty
/// frame end.
pub open spec fn hmd_frame_commands(m: HmdModel, frame_state: FrameState, i: u32, draw: DrawInputs) -> Seq<Command> {
    if frame_state.should_render {
        pre_render_hmd_commands(m, frame_state) + record_hmd_commands(m, i, draw) + submit_hmd_commands(
            after_record_hmd(m, i),
            i,
            frame_state,
        )
    } else {
        pre_render_hmd_commands(m, frame_state)
    }
}

pub open spec fn hmd_frame_after(m: HmdModel, frame_state: FrameState, i: u32) -> HmdModel {
    if frame_state.should_render {
        after_submit_hmd(after_record_hmd(m, i), i)
    } else {
        m
    }
}

/// Successive headset frames: `states[k]` is what the k-th frame wait
/// returned and `indices[k]` the image the runtime handed out, if asked to.
pub open spec fn hmd_frames_commands(
    m: HmdModel,
    states: Seq<FrameState>,
    indices: Seq<u32>,
    draw: DrawInputs,
) -> Seq<Command>
    decreases states.len(),
{
    if states.len() == 0 || indices.len() == 0 {
        Seq::empty()
    } else {
        hmd_frame_commands(m, states[0], indices[0], draw) + hmd_frames_commands(
            hmd_frame_after(m, states[0], indices[0]),
            states.skip(1),
            indices.skip(1),
            draw,
        )
    }
}

pub open spec fn hmd_frames_after(m: HmdModel, states: Seq<FrameState>, indices: Seq<u32>) -> HmdModel
    decreases states.len(),
{
    if states.len() == 0 || indices.len() == 0 {
        m
    } else {
        hmd_frames_after(hmd_frame_after(m, states[0], indices[0]), states.skip(1), indices.skip(1))
    }
}

proof fn lemma_hmd_frame_safe(m: HmdModel, frame_state: FrameState, i: u32, draw: DrawInputs)
    requires
        m.wf(),
        m.recorded is None,
        i < m.slots.len(),
    ensures
        run(fences_of(m.slots), hmd_frame_commands(m, frame_state, i, draw)) == Some(
            fences_of(hmd_frame_after(m, frame_state, i).slots),
        ),
        hmd_frame_after(m, frame_state, i).wf(),
        hmd_frame_after(m, frame_state, i).recorded is None,
        hmd_frame_after(m, frame_state, i).slots.len() == m.slots.len(),
{
    let f = fences_of(m.slots);
    let pre = pre_render_hmd_commands(m, frame_state);
    lemma_run_single(f, pre[0]);
    assert(pre =~= seq![pre[0]]);
    if frame_state.should_render {
        let m1 = after_record_hmd(m, i);
        let rec = record_hmd_commands(m, i, draw);
        let sub = submit_hmd_commands(m1, i, frame_state);
        lemma_record_hmd_safe(m, i, draw);
        lemma_submit_hmd_safe(m1, i, frame_state);
        lemma_run_append(f, pre, rec);
        lemma_run_append(f, pre + rec, sub);
    }
}

/// For every run of headset frames, rendered or skipped, no command buffer
/// is reset while its fence may be pending, no fence is waited on that
/// nothing will signal, and every submission finds its fence reset.
pub proof fn lemma_hmd_fence_gated_reuse(m: HmdModel, states: Seq<FrameState>, indices: Seq<u32>, draw: DrawInputs)
    requires
        m.wf(),
        m.recorded is None,
        forall|k: int| 0 <= k < indices.len() ==> #[trigger] indices[k] < m.slots.len(),
    ensures
        run(fences_of(m.slots), hmd_frames_commands(m, states, indices, draw)) == Some(
            fences_of(hmd_frames_after(m, states, indices).slots),
        ),
        hmd_frames_after(m, states, indices).wf(),
        hmd_frames_after(m, states, indices).recorded is None,
    decreases states.len(),
{
    if states.len() > 0 && indices.len() > 0 {
        let m1 = hmd_frame_after(m, states[0], indices[0]);
        assert(indices[0] < m.slots.len());
        lemma_hmd_frame_safe(m, states[0], indices[0], draw);
        assert forall|k: int| 0 <= k < indices.skip(1).len() implies #[trigger] indices.skip(1)[k]
            < m1.slots.len() by {
            assert(indices.skip(1)[k] == indices[k + 1]);
        }
        lemma_hmd_fence_gated_reuse(m1, states.skip(1), indices.skip(1), draw);
        lemma_run_append(
            fences_of(m.slots),
            hmd_frame_commands(m, states[0], indices[0], draw),
            hmd_frames_commands(m1, states.skip(1), indices.skip(1), draw),
        );
    }
}

/// When the runtime asks not to render, the headset frame ends with an empty
/// layer list, and neither recording nor submitting does anything: no fence
/// is waited on or signalled and nothing is drawn.
pub proof fn lemma_hmd_skip_path(m: HmdModel, frame_state: FrameState)
    requires
        m.wf(),
        !frame_state.should_render,
    ensures
        pre_render_hmd_commands(m, frame_state) == seq![
            Command::EndFrame { display_time: frame_state.predicted_display_time, view_count: 0, extent: m.extent },
        ],
        forall|k: int|
            0 <= k < pre_render_hmd_commands(m, frame_state).len() ==> !is_fence_or_draw(
                #[trigger] pre_render_hmd_commands(m, frame_state)[k],
            ),
        run(fences_of(m.slots), pre_render_hmd_commands(m, frame_state)) == Some(fences_of(m.slots)),
        record_hmd_outcome(m, PreRenderInfoHMD { image_index: None, frame_state }) == Err::<(), FrameError>(
            FrameError::NotRendering,
        ),
        submit_hmd_outcome(m, PreRenderInfoHMD { image_index: None, frame_state }) == Err::<(), FrameError>(
            FrameError::NotRendering,
        ),
{
    lemma_run_single(fences_of(m.slots), pre_render_hmd_commands(m, frame_state)[0]);
    assert(pre_render_hmd_commands(m, frame_state) =~= seq![pre_render_hmd_commands(m, frame_state)[0]]);
}

} // verus!
