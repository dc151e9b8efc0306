use vrv::frame::{surface_result, Command, DrawInputs, FenceStatus, FrameError, PerFrameResources, SurfaceStatus};
use vrv::surface::{Extent, SurfaceCapabilities, EXTENT_UNDEFINED};
use vrv::window::{PreRenderInfoWindow, WindowFrames};

fn resources(n: u64) -> Vec<PerFrameResources> {
    (0..n)
        .map(|i| PerFrameResources {
            command_buffer: 100 + i,
            rendering_finished_fence: 200 + i,
            image_acquired_semaphore: 300 + i,
            rendering_finished_semaphore: 400 + i,
        })
        .collect()
}

fn caps(max_image_count: u32) -> SurfaceCapabilities {
    SurfaceCapabilities {
        min_image_count: 2,
        max_image_count,
        current_extent: Extent { width: EXTENT_UNDEFINED, height: EXTENT_UNDEFINED },
        min_image_extent: Extent { width: 1, height: 1 },
        max_image_extent: Extent { width: 4096, height: 4096 },
    }
}

fn draw() -> DrawInputs {
    DrawInputs {
        pipeline_layout: 11,
        pipeline: 12,
        vertex_buffer: 13,
        index_buffer: 14,
        index_count: 36,
        descriptor_set: 15,
    }
}

fn window3() -> WindowFrames {
    WindowFrames::new(&caps(0), Extent { width: 800, height: 600 }, resources(3)).unwrap()
}

fn frame(w: &mut WindowFrames, image_index: u32) -> (u64, Vec<Command>) {
    let semaphore = w.pre_render_window();
    let info = PreRenderInfoWindow::from_acquire(semaphore, SurfaceStatus::Success, image_index).unwrap();
    (semaphore, w.render_window(info, draw()).unwrap())
}

/// A device that tracks fences as the GPU would, and fails on any reset of a
/// command buffer whose submission may still be running.
struct MockDevice {
    fences: Vec<FenceStatus>,
    resets: usize,
}

impl MockDevice {
    fn new(n: usize) -> Self {
        MockDevice { fences: vec![FenceStatus::Signaled; n], resets: 0 }
    }

    fn execute(&mut self, cmds: &[Command]) {
        for c in cmds {
            match *c {
                Command::WaitAndResetFence { slot } => {
                    assert_ne!(self.fences[slot], FenceStatus::Unsignaled, "wait would never return");
                    self.fences[slot] = FenceStatus::Unsignaled;
                }
                Command::ResetCommandBuffer { slot } => {
                    assert_ne!(self.fences[slot], FenceStatus::Pending, "reset while in flight");
                    self.resets += 1;
                }
                Command::Submit { slot, .. } => {
                    assert_eq!(self.fences[slot], FenceStatus::Unsignaled);
                    self.fences[slot] = FenceStatus::Pending;
                }
                Command::WaitIdle => {
                    for f in self.fences.iter_mut() {
                        if *f == FenceStatus::Pending {
                            *f = FenceStatus::Signaled;
                        }
                    }
                }
                _ => {}
            }
        }
    }
}

#[test]
fn steady_window_render() {
    let mut w = window3();
    assert_eq!(w.get_image_count_window(), 3);
    let indices = [0u32, 1, 2, 0, 1, 2, 0, 1, 2, 0];
    let mut waits = [0usize; 3];
    for &i in indices.iter() {
        let (semaphore, cmds) = frame(&mut w, i);
        for c in cmds.iter() {
            if let Command::WaitAndResetFence { slot } = c {
                waits[*slot] += 1;
            }
        }
        let submit_wait = cmds
            .iter()
            .find_map(|c| match c {
                Command::Submit { wait_semaphore, .. } => Some(*wait_semaphore),
                _ => None,
            })
            .unwrap();
        assert_eq!(submit_wait, semaphore);
    }
    for &n in waits.iter() {
        assert!(n == 10 / 3 || n == (10 + 2) / 3);
    }
    assert_eq!(waits, [4, 3, 3]);
}

#[test]
fn window_frame_command_order() {
    let mut w = window3();
    let (semaphore, cmds) = frame(&mut w, 1);
    assert_eq!(semaphore, 300);
    let extent = Extent { width: 800, height: 600 };
    assert_eq!(
        cmds,
        vec![
            Command::WaitAndResetFence { slot: 1 },
            Command::ResetCommandBuffer { slot: 1 },
            Command::BeginCommandBuffer { slot: 1 },
            Command::BeginRenderPass { slot: 1, framebuffer: 1, extent },
            Command::BindPipeline { slot: 1, pipeline: 12 },
            Command::SetViewport { slot: 1, extent },
            Command::SetScissor { slot: 1, extent },
            Command::BindMesh { slot: 1, vertex_buffer: 13, index_buffer: 14 },
            Command::BindDescriptorSet { slot: 1, layout: 11, set: 15 },
            Command::DrawIndexed { slot: 1, index_count: 36 },
            Command::EndRenderPass { slot: 1 },
            Command::EndCommandBuffer { slot: 1 },
            Command::Submit { slot: 1, wait_semaphore: 300, signal_semaphore: 401 },
            Command::Present { image_index: 1, wait_semaphore: 401 },
        ]
    );
    assert_eq!(w.fence_status(1), Some(FenceStatus::Pending));
    assert_eq!(w.fence_status(0), Some(FenceStatus::Signaled));
}

#[test]
fn fence_gated_reuse_on_mock_device() {
    let mut w = window3();
    let mut device = MockDevice::new(3);
    let indices = [2u32, 0, 0, 1, 2, 2, 1, 0, 1, 1, 2, 0, 0, 0];
    for &i in indices.iter() {
        let (_, cmds) = frame(&mut w, i);
        device.execute(&cmds);
        for s in 0..3usize {
            assert_eq!(w.fence_status(s), Some(device.fences[s]));
        }
    }
    assert_eq!(device.resets, indices.len());
}

#[test]
fn ring_advancement() {
    let mut w = window3();
    let start = w.acquire_cursor();
    assert_eq!(start, 0);
    let mut handed = Vec::new();
    for _ in 0..3 {
        handed.push(w.pre_render_window());
    }
    assert_eq!(handed, vec![300, 301, 302]);
    assert_eq!(w.acquire_cursor(), start);
    assert_eq!(w.pre_render_window(), 300);
    assert_eq!(w.acquire_cursor(), 1);
}

#[test]
fn ring_ignores_acquired_image_index() {
    let mut w = window3();
    let (s0, _) = frame(&mut w, 2);
    let (s1, _) = frame(&mut w, 2);
    assert_eq!((s0, s1), (300, 301));
}

#[test]
fn resize_under_load() {
    let mut w = window3();
    let mut device = MockDevice::new(3);
    let (_, cmds) = frame(&mut w, 1);
    device.execute(&cmds);
    assert_eq!(w.fence_status(1), Some(FenceStatus::Pending));

    let smaller = caps(2);
    assert_eq!(w.resources_needed(&smaller), 0);
    let cmds = w.resize(&smaller, Extent { width: 1024, height: 768 }, Vec::new()).unwrap();
    let idle = cmds.iter().position(|c| *c == Command::WaitIdle).unwrap();
    let destroy = cmds.iter().position(|c| *c == Command::DestroySwapchain).unwrap();
    assert!(idle < destroy);
    assert_eq!(idle, 0);
    assert_eq!(
        cmds,
        vec![
            Command::WaitIdle,
            Command::DestroySwapchain,
            Command::CreateSwapchain { extent: Extent { width: 1024, height: 768 }, image_count: 2 },
            Command::DestroyFrameResources { resources: resources(3)[2] },
        ]
    );
    device.execute(&cmds);
    assert_eq!(device.fences[1], FenceStatus::Signaled);
    assert_eq!(w.fence_status(1), Some(FenceStatus::Signaled));
    assert_eq!(w.get_image_count_window(), smaller.get_image_count());
    assert_eq!(w.get_image_count_window(), 2);
    assert_eq!(w.extent(), Extent { width: 1024, height: 768 });
}

#[test]
fn resize_idempotence() {
    let mut w = window3();
    let _ = frame(&mut w, 0);
    let e = Extent { width: 640, height: 480 };
    let first = w.resize(&caps(0), e, Vec::new()).unwrap();
    let (count1, extent1) = (w.get_image_count_window(), w.extent());
    let second = w.resize(&caps(0), e, Vec::new()).unwrap();
    let (count2, extent2) = (w.get_image_count_window(), w.extent());
    assert_eq!((count1, extent1), (count2, extent2));
    assert_eq!((count1, extent1), (3, e));
    assert_eq!(first, second);
    let creates = second.iter().filter(|c| matches!(c, Command::CreateSwapchain { .. })).count();
    let destroys = second
        .iter()
        .filter(|c| matches!(c, Command::DestroySwapchain | Command::DestroyFrameResources { .. }))
        .count();
    assert_eq!(creates, destroys);
}

#[test]
fn resize_grows_slots() {
    let mut w = WindowFrames::new(&caps(2), Extent { width: 10, height: 10 }, resources(2)).unwrap();
    let more = caps(0);
    assert_eq!(w.resources_needed(&more), 1);
    assert_eq!(
        w.resize(&more, Extent { width: 10, height: 10 }, Vec::new()),
        Err(FrameError::ResourceCountMismatch)
    );
    assert_eq!(w.get_image_count_window(), 2);
    let fresh = vec![resources(3)[2]];
    let cmds = w.resize(&more, Extent { width: 20, height: 30 }, fresh).unwrap();
    assert_eq!(cmds.len(), 3);
    assert_eq!(w.get_image_count_window(), 3);
    assert_eq!(w.resources(2), Some(resources(3)[2]));
    assert_eq!(w.fence_status(2), Some(FenceStatus::Signaled));
    assert_eq!(w.resources(3), None);
}

#[test]
fn resize_keeps_cursor_inside_ring() {
    let mut w = window3();
    w.pre_render_window();
    w.pre_render_window();
    assert_eq!(w.acquire_cursor(), 2);
    w.resize(&caps(2), Extent { width: 10, height: 10 }, Vec::new()).unwrap();
    assert_eq!(w.acquire_cursor(), 0);
    assert_eq!(w.pre_render_window(), 300);
}

#[test]
fn render_window_rejects_unknown_image() {
    let mut w = window3();
    let info = PreRenderInfoWindow { image_index: 3, image_acquired_semaphore: 300 };
    assert_eq!(w.render_window(info, draw()), Err(FrameError::ImageIndexOutOfRange));
    for s in 0..3 {
        assert_eq!(w.fence_status(s), Some(FenceStatus::Signaled));
    }
}

#[test]
fn new_window_needs_matching_resources() {
    let r = WindowFrames::new(&caps(0), Extent { width: 1, height: 1 }, resources(2));
    assert!(matches!(r, Err(FrameError::ResourceCountMismatch)));
    let w = WindowFrames::new(&caps(0), Extent { width: 9000, height: 0 }, resources(3)).unwrap();
    assert_eq!(w.extent(), Extent { width: 4096, height: 1 });
}

#[test]
fn acquire_out_of_date_asks_for_resize() {
    let r = PreRenderInfoWindow::from_acquire(300, SurfaceStatus::OutOfDate, 0);
    assert_eq!(r, Err(FrameError::OutOfDate));
    assert!(r.unwrap_err().needs_resize());
    let f = PreRenderInfoWindow::from_acquire(300, SurfaceStatus::Failed { code: -4 }, 0);
    assert_eq!(f, Err(FrameError::Device { code: -4 }));
    assert!(!f.unwrap_err().needs_resize());
    let s = PreRenderInfoWindow::from_acquire(301, SurfaceStatus::Suboptimal, 2);
    assert_eq!(s, Ok(PreRenderInfoWindow { image_index: 2, image_acquired_semaphore: 301 }));
}

#[test]
fn present_result_classification() {
    assert_eq!(surface_result(SurfaceStatus::Success), Ok(()));
    assert_eq!(surface_result(SurfaceStatus::Suboptimal), Ok(()));
    assert_eq!(surface_result(SurfaceStatus::OutOfDate), Err(FrameError::OutOfDate));
    assert_eq!(surface_result(SurfaceStatus::Failed { code: -3 }), Err(FrameError::Device { code: -3 }));
}
