use vstd::prelude::*;

use crate::frame::{
    fences_of, lemma_fences_update, lemma_record_pass_neutral, lemma_run_append, lemma_run_neutral,
    lemma_run_single, neutral_at, record_pass, record_pass_spec, run, settle, step, surface_result,
    surface_result_spec, Command, DrawInputs, FenceStatus, FrameError, FrameSlot, PerFrameResources,
    SurfaceStatus,
};
use crate::ring::{advance_spec, AcquireSemaphoreRing};
use crate::surface::{allowed_extent_spec, image_count_spec, Extent, SurfaceCapabilities};

verus! {

/// What `render_window` needs from the acquire call.
#[derive(Clone, Copy, Debug, PartialEq, Eq, Structural)]
pub struct PreRenderInfoWindow {
    pub image_index: u32,
    pub image_acquired_semaphore: u64,
}

/// The window target: one slot per swapchain image, the acquire ring over
/// the slots' image-acquired semaphores, and the swapchain extent.
pub struct WindowFrames {
    slots: Vec<FrameSlot>,
    ring: AcquireSemaphoreRing,
    extent: Extent,
}

pub struct WindowModel {
    pub slots: Seq<FrameSlot>,
    pub cursor: nat,
    pub extent: Extent,
}

impl View for WindowFrames {
    type V = WindowModel;

    closed spec fn view(&self) -> WindowModel {
        WindowModel { slots: self.slots@, cursor: self.ring.position_spec(), extent: self.extent }
    }
}

impl WindowModel {
    /// Between frames every fence is signalled or will be: none is left
    /// reset with nothing to signal it.
    pub open spec fn wf(&self) -> bool {
        &&& 0 < self.slots.len() <= u32::MAX
        &&& self.cursor < self.slots.len()
        &&& forall|i: int| 0 <= i < self.slots.len() ==> #[trigger] self.slots[i].fence != FenceStatus::Unsignaled
    }
}

pub open spec fn acquire_semaphore_spec(m: WindowModel) -> u64 {
    m.slots[m.cursor as int].resources.image_acquired_semaphore
}

pub open spec fn after_pre_render(m: WindowModel) -> WindowModel {
    WindowModel { cursor: advance_spec(m.cursor, m.slots.len()), ..m }
}

/// Wait for the slot's previous use, record, submit after the image is
/// acquired, present after rendering finished.
pub open spec fn render_window_commands(m: WindowModel, info: PreRenderInfoWindow, draw: DrawInputs) -> Seq<Command> {
    let i = info.image_index as usize;
    let signal = m.slots[i as int].resources.rendering_finished_semaphore;
    seq![Command::WaitAndResetFence { slot: i }] + record_pass_spec(i, i, m.extent, draw, true) + seq![
        Command::Submit { slot: i, wait_semaphore: info.image_acquired_semaphore, signal_semaphore: signal },
        Command::Present { image_index: info.image_index, wait_semaphore: signal },
    ]
}

pub open spec fn after_render_window(m: WindowModel, info: PreRenderInfoWindow) -> WindowModel {
    let i = info.image_index as int;
    WindowModel { slots: m.slots.update(i, FrameSlot { fence: FenceStatus::Pending, ..m.slots[i] }), ..m }
}

/// The image count the surface asks for, as a slot count.
pub open spec fn new_slot_count(caps: SurfaceCapabilities) -> nat {
    image_count_spec(caps) as nat
}

/// How many fresh per-frame resources a resize to `caps` needs.
pub open spec fn resources_needed_spec(m: WindowModel, caps: SurfaceCapabilities) -> nat {
    if new_slot_count(caps) > m.slots.len() {
        (new_slot_count(caps) - m.slots.len()) as nat
    } else {
        0
    }
}

pub open spec fn resized_slots(slots: Seq<FrameSlot>, count: nat, fresh: Seq<PerFrameResources>) -> Seq<FrameSlot> {
    Seq::new(
        count,
        |j: int|
            if j < slots.len() {
                FrameSlot { resources: slots[j].resources, fence: settle(slots[j].fence) }
            } else {
                FrameSlot { resources: fresh[j - slots.len()], fence: FenceStatus::Signaled }
            },
    )
}

pub open spec fn resize_model(
    m: WindowModel,
    caps: SurfaceCapabilities,
    wanted: Extent,
    fresh: Seq<PerFrameResources>,
) -> WindowModel {
    let count = new_slot_count(caps);
    WindowModel {
        slots: resized_slots(m.slots, count, fresh),
        cursor: if m.cursor < count { m.cursor } else { 0 },
        extent: allowed_extent_spec(caps, wanted),
    }
}

/// Drain the queue, rebuild the swapchain, then free the slots that the new
/// image count no longer has.
pub open spec fn resize_commands(m: WindowModel, caps: SurfaceCapabilities, wanted: Extent) -> Seq<Command> {
    let count = new_slot_count(caps);
    let dropped: nat = if m.slots.len() > count { (m.slots.len() - count) as nat } else { 0 };
    seq![
        Command::WaitIdle,
        Command::DestroySwapchain,
        Command::CreateSwapchain { extent: allowed_extent_spec(caps, wanted), image_count: image_count_spec(caps) },
    ] + Seq::new(dropped, |k: int| Command::DestroyFrameResources { resources: m.slots[count + k].resources })
}

fn settled(s: FenceStatus) -> (r: FenceStatus)
    ensures
        r == settle(s),
{
    match s {
        FenceStatus::Pending => FenceStatus::Signaled,
        _ => s,
    }
}

impl PreRenderInfoWindow {
    /// Joins the semaphore handed to the acquire call with what the call
    /// returned. An out-of-date surface asks for a resize before the frame
    /// is retried.
    pub fn from_acquire(image_acquired_semaphore: u64, status: SurfaceStatus, image_index: u32) -> (r: Result<
        PreRenderInfoWindow,
        FrameError,
    >)
        ensures
            surface_result_spec(status) is Ok ==> r == Ok::<PreRenderInfoWindow, FrameError>(
                PreRenderInfoWindow { image_index, image_acquired_semaphore },
            ),
            surface_result_spec(status) matches Err(e) ==> r == Err::<PreRenderInfoWindow, FrameError>(e),
    {
        match surface_result(status) {
            Ok(()) => Ok(PreRenderInfoWindow { image_index, image_acquired_semaphore }),
            Err(e) => Err(e),
        }
    }
}

impl WindowFrames {
    /// The ring runs over exactly the slots.
    pub closed spec fn ring_matches(&self) -> bool {
        self.ring.wf() && self.ring.len_spec() == self.slots@.len()
    }

    pub open spec fn wf(&self) -> bool {
        self@.wf() && self.ring_matches()
    }

    /// The window target over `resources`, one per swapchain image, for a
    /// surface with capabilities `caps` and a window of size `wanted`. The
    /// fences were created signalled, so the first wait on each returns at
    /// once.
    pub fn new(caps: &SurfaceCapabilities, wanted: Extent, resources: Vec<PerFrameResources>) -> (r: Result<
        WindowFrames,
        FrameError,
    >)
        ensures
            resources@.len() != new_slot_count(*caps) ==> r == Err::<WindowFrames, FrameError>(
                FrameError::ResourceCountMismatch,
            ),
            resources@.len() == new_slot_count(*caps) ==> r is Ok,
            r matches Ok(w) ==> {
                &&& w.wf()
                &&& w@.cursor == 0
                &&& w@.extent == allowed_extent_spec(*caps, wanted)
                &&& w@.slots.len() == resources@.len()
                &&& forall|i: int|
                    0 <= i < resources@.len() ==> #[trigger] w@.slots[i] == (FrameSlot {
                        resources: resources@[i],
                        fence: FenceStatus::Signaled,
                    })
            },
    {
        let count = caps.get_image_count();
        if resources.len() != count as usize {
            return Err(FrameError::ResourceCountMismatch);
        }
        let mut slots: Vec<FrameSlot> = Vec::new();
        let mut i: usize = 0;
        while i < resources.len()
            invariant
                i <= resources@.len(),
                slots@.len() == i,
                forall|k: int|
                    0 <= k < i ==> #[trigger] slots@[k] == (FrameSlot {
                        resources: resources@[k],
                        fence: FenceStatus::Signaled,
                    }),
            decreases resources@.len() - i,
        {
            slots.push(FrameSlot { resources: resources[i], fence: FenceStatus::Signaled });
            i += 1;
        }
        let ring = match AcquireSemaphoreRing::new(slots.len()) {
            Some(ring) => ring,
            None => {
                return Err(FrameError::NoImages);
            },
        };
        Ok(WindowFrames { slots, ring, extent: caps.get_allowed_extend(wanted) })
    }

    /// Number of window swapchain images, which is the number of slots.
    pub fn get_image_count_window(&self) -> (r: u32)
        requires
            self.wf(),
        ensures
            r == self@.slots.len(),
    {
        self.slots.len() as u32
    }

    /// The current swapchain extent.
    pub fn extent(&self) -> (r: Extent)
        ensures
            r == self@.extent,
    {
        self.extent
    }

    /// The index of the slot whose image-acquired semaphore the next acquire
    /// call uses.
    pub fn acquire_cursor(&self) -> (r: usize)
        ensures
            r == self@.cursor,
    {
        self.ring.position()
    }

    /// The resources of slot `slot`, if there is one.
    pub fn resources(&self, slot: usize) -> (r: Option<PerFrameResources>)
        ensures
            slot < self@.slots.len() ==> r == Some(self@.slots[slot as int].resources),
            slot >= self@.slots.len() ==> r is None,
    {
        if slot < self.slots.len() {
            Some(self.slots[slot].resources)
        } else {
            None
        }
    }

    /// The state of the fence of slot `slot`, if there is one.
    pub fn fence_status(&self, slot: usize) -> (r: Option<FenceStatus>)
        ensures
            slot < self@.slots.len() ==> r == Some(self@.slots[slot as int].fence),
            slot >= self@.slots.len() ==> r is None,
    {
        if slot < self.slots.len() {
            Some(self.slots[slot].fence)
        } else {
            None
        }
    }

    /// Picks the semaphore for the next acquire call, moving the ring's
    /// cursor on by one. The caller acquires the next image with it, without
    /// timeout, and joins the outcome with `PreRenderInfoWindow::from_acquire`.
    pub fn pre_render_window(&mut self) -> (r: u64)
        requires
            old(self).wf(),
        ensures
            final(self).wf(),
            r == acquire_semaphore_spec(old(self)@),
            final(self)@ == after_pre_render(old(self)@),
    {
        let k = self.ring.next();
        self.slots[k].resources.image_acquired_semaphore
    }

    /// The commands of one window frame for the acquired image. The slot's
    /// fence is waited on and reset before its command buffer is reset, so no
    /// command buffer is touched while the GPU may still read it.
    pub fn render_window(&mut self, info: PreRenderInfoWindow, draw: DrawInputs) -> (r: Result<Vec<Command>, FrameError>)
        requires
            old(self).wf(),
        ensures
            final(self).wf(),
            info.image_index >= old(self)@.slots.len() ==> r == Err::<Vec<Command>, FrameError>(
                FrameError::ImageIndexOutOfRange,
            ) && final(self)@ == old(self)@,
            info.image_index < old(self)@.slots.len() ==> r is Ok,
            r matches Ok(cmds) ==> {
                &&& cmds@ == render_window_commands(old(self)@, info, draw)
                &&& final(self)@ == after_render_window(old(self)@, info)
                &&& run(fences_of(old(self)@.slots), cmds@) == Some(fences_of(final(self)@.slots))
            },
    {
        let i = info.image_index as usize;
        if i >= self.slots.len() {
            return Err(FrameError::ImageIndexOutOfRange);
        }
        let signal = self.slots[i].resources.rendering_finished_semaphore;
        let mut cmds: Vec<Command> = Vec::new();
        cmds.push(Command::WaitAndResetFence { slot: i });
        record_pass(&mut cmds, i, i, self.extent, draw, true);
        cmds.push(Command::Submit { slot: i, wait_semaphore: info.image_acquired_semaphore, signal_semaphore: signal });
        cmds.push(Command::Present { image_index: info.image_index, wait_semaphore: signal });
        proof {
            assert(cmds@ =~= render_window_commands(self@, info, draw));
            lemma_render_window_safe(self@, info, draw);
        }
        let slot = FrameSlot { resources: self.slots[i].resources, fence: FenceStatus::Pending };
        self.slots.set(i, slot);
        proof {
            assert(self@.slots =~= after_render_window(old(self)@, info).slots);
        }
        Ok(cmds)
    }

    /// How many fresh per-frame resources `resize` needs for `caps`: the
    /// growth of the image count, if any.
    pub fn resources_needed(&self, caps: &SurfaceCapabilities) -> (r: usize)
        requires
            self.wf(),
        ensures
            r == resources_needed_spec(self@, *caps),
    {
        let count = caps.get_image_count() as usize;
        if count > self.slots.len() {
            count - self.slots.len()
        } else {
            0
        }
    }

    /// Rebuilds the window swapchain for a window of size `wanted`. The
    /// commands drain the queue first, so nothing in flight still uses the
    /// swapchain when it is destroyed, and every fence is then signalled.
    /// Slots are kept while the image count stays; `fresh` supplies the
    /// slots it grows by, and the slots it shrinks by are destroyed.
    pub fn resize(
        &mut self,
        caps: &SurfaceCapabilities,
        wanted: Extent,
        fresh: Vec<PerFrameResources>,
    ) -> (r: Result<Vec<Command>, FrameError>)
        requires
            old(self).wf(),
        ensures
            final(self).wf(),
            fresh@.len() != resources_needed_spec(old(self)@, *caps) ==> r == Err::<Vec<Command>, FrameError>(
                FrameError::ResourceCountMismatch,
            ) && final(self)@ == old(self)@,
            fresh@.len() == resources_needed_spec(old(self)@, *caps) ==> r is Ok,
            r matches Ok(cmds) ==> {
                &&& cmds@ == resize_commands(old(self)@, *caps, wanted)
                &&& final(self)@ == resize_model(old(self)@, *caps, wanted, fresh@)
                &&& run(fences_of(old(self)@.slots), cmds@) == Some(
                    fences_of(old(self)@.slots).map_values(|s: FenceStatus| settle(s)),
                )
            },
    {
        let needed = self.resources_needed(caps);
        if fresh.len() != needed {
            return Err(FrameError::ResourceCountMismatch);
        }
        let count = caps.get_image_count() as usize;
        let extent = caps.get_allowed_extend(wanted);
        let ghost m = self@;
        let old_len = self.slots.len();
        let keep = if count < old_len { count } else { old_len };

        let mut cmds: Vec<Command> = Vec::new();
        cmds.push(Command::WaitIdle);
        cmds.push(Command::DestroySwapchain);
        cmds.push(Command::CreateSwapchain { extent, image_count: count as u32 });
        let mut j: usize = count;
        while j < old_len
            invariant
                self@ == m,
                old_len == m.slots.len(),
                count == new_slot_count(*caps),
                count <= j <= old_len || (old_len < count && j == count),
                cmds@.len() == 3 + (if j > count { j - count } else { 0int }),
                forall|k: int| 0 <= k < 3 ==> #[trigger] cmds@[k] == resize_commands(m, *caps, wanted)[k],
                forall|k: int|
                    3 <= k < cmds@.len() ==> #[trigger] cmds@[k] == (Command::DestroyFrameResources {
                        resources: m.slots[count + k - 3].resources,
                    }),
            decreases old_len - j,
        {
            cmds.push(Command::DestroyFrameResources { resources: self.slots[j].resources });
            j += 1;
        }
        proof {
            assert(cmds@ =~= resize_commands(m, *caps, wanted));
        }

        let mut slots: Vec<FrameSlot> = Vec::new();
        let mut i: usize = 0;
        while i < keep
            invariant
                self@ == m,
                keep <= old_len == m.slots.len(),
                keep <= count,
                i <= keep,
                slots@.len() == i,
                forall|k: int|
                    0 <= k < i ==> #[trigger] slots@[k] == resized_slots(m.slots, count as nat, fresh@)[k],
            decreases keep - i,
        {
            let s = self.slots[i];
            slots.push(FrameSlot { resources: s.resources, fence: settled(s.fence) });
            i += 1;
        }
        let mut k: usize = 0;
        while k < fresh.len()
            invariant
                keep <= count,
                fresh@.len() == resources_needed_spec(m, *caps),
                count == new_slot_count(*caps),
                keep == if count < m.slots.len() { count } else { m.slots.len() as usize },
                k <= fresh@.len(),
                slots@.len() == keep + k,
                forall|q: int|
                    0 <= q < keep + k ==> #[trigger] slots@[q] == resized_slots(m.slots, count as nat, fresh@)[q],
            decreases fresh@.len() - k,
        {
            slots.push(FrameSlot { resources: fresh[k], fence: FenceStatus::Signaled });
            k += 1;
        }
        proof {
            assert(slots@ =~= resized_slots(m.slots, count as nat, fresh@));
            lemma_resize_safe(m, *caps, wanted);
        }
        self.slots = slots;
        self.ring.set_len(count);
        self.extent = extent;
        proof {
            assert forall|q: int| 0 <= q < self@.slots.len() implies #[trigger] self@.slots[q].fence
                != FenceStatus::Unsignaled by {
                if q < m.slots.len() {
                    assert(m.slots[q].fence != FenceStatus::Unsignaled);
                }
            }
        }
        Ok(cmds)
    }
}

/// One window frame is safe on the fence model: the slot's fence is waited
/// on before its command buffer is reset, and left pending after.
pub proof fn lemma_render_window_safe(m: WindowModel, info: PreRenderInfoWindow, draw: DrawInputs)
    requires
        m.wf(),
        info.image_index < m.slots.len(),
    ensures
        run(fences_of(m.slots), render_window_commands(m, info, draw)) == Some(
            fences_of(after_render_window(m, info).slots),
        ),
        after_render_window(m, info).wf(),
{
    let i = info.image_index as usize;
    let f = fences_of(m.slots);
    let f1 = f.update(i as int, FenceStatus::Unsignaled);
    let f2 = f1.update(i as int, FenceStatus::Pending);
    let signal = m.slots[i as int].resources.rendering_finished_semaphore;
    let wait = seq![Command::WaitAndResetFence { slot: i }];
    let rec = record_pass_spec(i, i, m.extent, draw, true);
    let submit = seq![Command::Submit { slot: i, wait_semaphore: info.image_acquired_semaphore, signal_semaphore: signal }];
    let present = seq![Command::Present { image_index: info.image_index, wait_semaphore: signal }];
    assert(render_window_commands(m, info, draw) =~= wait + rec + submit + present);
    assert(m.slots[i as int].fence != FenceStatus::Unsignaled);
    lemma_run_single(f, Command::WaitAndResetFence { slot: i });
    lemma_record_pass_neutral(i, i, m.extent, draw, true);
    lemma_run_neutral(f1, rec, i);
    lemma_run_single(f1, submit[0]);
    assert(submit =~= seq![submit[0]]);
    lemma_run_single(f2, present[0]);
    assert(present =~= seq![present[0]]);
    lemma_run_append(f, wait, rec);
    lemma_run_append(f, wait + rec, submit);
    lemma_run_append(f, wait + rec + submit, present);
    assert(f2 =~= f.update(i as int, FenceStatus::Pending));
    lemma_fences_update(m.slots, i as int, FrameSlot { fence: FenceStatus::Pending, ..m.slots[i as int] });
}

proof fn lemma_resize_safe(m: WindowModel, caps: SurfaceCapabilities, wanted: Extent)
    requires
        m.wf(),
    ensures
        run(fences_of(m.slots), resize_commands(m, caps, wanted)) == Some(
            fences_of(m.slots).map_values(|s: FenceStatus| settle(s)),
        ),
{
    let f = fences_of(m.slots);
    let g = f.map_values(|s: FenceStatus| settle(s));
    let cmds = resize_commands(m, caps, wanted);
    let rest = cmds.skip(1);
    assert(step(f, Command::WaitIdle) == Some(g));
    assert(g.len() == f.len());
    assert(0 < m.slots.len());
    assert(g[0] != FenceStatus::Pending);
    assert forall|k: int| 0 <= k < rest.len() implies neutral_at(#[trigger] rest[k], 0) by {
        assert(rest[k] == cmds[k + 1]);
    }
    lemma_run_neutral(g, rest, 0);
}

pub open spec fn frame_info(m: WindowModel, image_index: u32) -> PreRenderInfoWindow {
    PreRenderInfoWindow { image_index, image_acquired_semaphore: acquire_semaphore_spec(m) }
}

/// The commands of successive window frames, one per acquired image index:
/// `pre_render_window`, then `render_window` with the semaphore it picked.
pub open spec fn frames_commands(m: WindowModel, indices: Seq<u32>, draw: DrawInputs) -> Seq<Command>
    decreases indices.len(),
{
    if indices.len() == 0 {
        Seq::empty()
    } else {
        let info = frame_info(m, indices[0]);
        let m1 = after_pre_render(m);
        render_window_commands(m1, info, draw) + frames_commands(
            after_render_window(m1, info),
            indices.skip(1),
            draw,
        )
    }
}

pub open spec fn frames_after(m: WindowModel, indices: Seq<u32>) -> WindowModel
    decreases indices.len(),
{
    if indices.len() == 0 {
        m
    } else {
        let info = frame_info(m, indices[0]);
        frames_after(after_render_window(after_pre_render(m), info), indices.skip(1))
    }
}

/// For every sequence of acquired image indices, however long, the window
/// frames never reset a command buffer whose fence may still be pending,
/// never wait on a fence that nothing will signal, and never submit with a
/// fence that was not reset.
pub proof fn lemma_fence_gated_reuse(m: WindowModel, indices: Seq<u32>, draw: DrawInputs)
    requires
        m.wf(),
        forall|k: int| 0 <= k < indices.len() ==> #[trigger] indices[k] < m.slots.len(),
    ensures
        run(fences_of(m.slots), frames_commands(m, indices, draw)) == Some(
            fences_of(frames_after(m, indices).slots),
        ),
        frames_after(m, indices).wf(),
        frames_after(m, indices).slots.len() == m.slots.len(),
    decreases indices.len(),
{
    if indices.len() > 0 {
        let info = frame_info(m, indices[0]);
        let m1 = after_pre_render(m);
        let m2 = after_render_window(m1, info);
        assert(indices[0] < m.slots.len());
        lemma_render_window_safe(m1, info, draw);
        assert forall|k: int| 0 <= k < indices.skip(1).len() implies #[trigger] indices.skip(1)[k]
            < m2.slots.len() by {
            assert(indices.skip(1)[k] == indices[k + 1]);
        }
        lemma_fence_gated_reuse(m2, indices.skip(1), draw);
        lemma_run_append(
            fences_of(m.slots),
            render_window_commands(m1, info, draw),
            frames_commands(m2, indices.skip(1), draw),
        );
    }
}

/// Resizing twice in a row to the same extent, on the same surface, gives
/// the same swapchain both times: the second call needs no fresh resources,
/// keeps extent, image count and slots, destroys only the swapchain the
/// first call created, and creates only its like.
pub proof fn lemma_resize_idempotent(
    m: WindowModel,
    caps: SurfaceCapabilities,
    wanted: Extent,
    fresh: Seq<PerFrameResources>,
)
    requires
        m.wf(),
        fresh.len() == resources_needed_spec(m, caps),
    ensures
        ({
            let m1 = resize_model(m, caps, wanted, fresh);
            &&& m1.wf()
            &&& resources_needed_spec(m1, caps) == 0
            &&& resize_model(m1, caps, wanted, Seq::empty()) == m1
            &&& resize_commands(m1, caps, wanted) == seq![
                Command::WaitIdle,
                Command::DestroySwapchain,
                Command::CreateSwapchain { extent: m1.extent, image_count: m1.slots.len() as u32 },
            ]
            &&& m1.extent == allowed_extent_spec(caps, wanted)
            &&& m1.slots.len() == image_count_spec(caps)
        }),
{
    let m1 = resize_model(m, caps, wanted, fresh);
    let count = new_slot_count(caps);
    assert(m1.slots.len() == count);
    assert forall|i: int| 0 <= i < m1.slots.len() implies #[trigger] m1.slots[i].fence != FenceStatus::Unsignaled by {
        if i < m.slots.len() {
            assert(m.slots[i].fence != FenceStatus::Unsignaled);
        }
    }
    let m2 = resize_model(m1, caps, wanted, Seq::empty());
    assert(m2.slots =~= m1.slots);
    assert(resize_commands(m1, caps, wanted) =~= seq![
        Command::WaitIdle,
        Command::DestroySwapchain,
        Command::CreateSwapchain { extent: m1.extent, image_count: m1.slots.len() as u32 },
    ]);
}

} // verus!
