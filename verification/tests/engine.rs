use render_support::cube::{
    Cube, CubeRender, DrawCommand, GeometryBuffer, Pipeline, PipelineLayout, PolygonMode,
    PrimitiveTopology, INDICES, NUMBER_OF_LINE_SEGMENTS, PUSH_CONSTANT_SIZE, VERTICES,
};
use render_support::device::{RenderDevice, MAX_FRAMES_IN_FLIGHT};
use render_support::error::Error;
use render_support::frame::{
    acquire_event, present_event, Frame, FrameAction, FrameEvent, FramePhase, SlotState,
};
use render_support::types::{BufferHandle, Extent2D, Format, SampleCount};

const WINDOW: Extent2D = Extent2D { width: 800, height: 600 };

fn whole_frame(frame: &mut Frame, image_index: u32) {
    let slot = frame.current_frame;
    assert_eq!(
        frame.step(FrameEvent::Begin { dimensions: WINDOW }),
        Ok(FrameAction::WaitForFence { slot })
    );
    assert_eq!(frame.step(FrameEvent::FenceSignaled), Ok(FrameAction::AcquireImage { slot }));
    assert_eq!(
        frame.step(FrameEvent::ImageAcquired { image_index }),
        Ok(FrameAction::RecordAndSubmit { slot, image_index })
    );
    assert_eq!(frame.step(FrameEvent::Submitted), Ok(FrameAction::Present { slot, image_index }));
    assert_eq!(frame.step(FrameEvent::Presented), Ok(FrameAction::Finished));
}

#[test]
fn frames_in_flight_never_exceed_the_ring() {
    let mut frame = Frame::new(WINDOW, 3, MAX_FRAMES_IN_FLIGHT);
    assert_eq!(frame.frames_in_flight(), 0);
    for number in 0..10u32 {
        assert_eq!(frame.current_frame, (number as usize) % MAX_FRAMES_IN_FLIGHT);
        frame.step(FrameEvent::Begin { dimensions: WINDOW }).unwrap();
        assert!(frame.frames_in_flight() <= MAX_FRAMES_IN_FLIGHT);
        frame.step(FrameEvent::FenceSignaled).unwrap();
        assert_eq!(frame.slots[frame.current_frame], SlotState::Idle);
        assert!(frame.frames_in_flight() < MAX_FRAMES_IN_FLIGHT);
        frame.step(FrameEvent::ImageAcquired { image_index: number % 3 }).unwrap();
        frame.step(FrameEvent::Submitted).unwrap();
        assert_eq!(frame.slots[frame.current_frame], SlotState::Submitted);
        assert!(frame.frames_in_flight() <= MAX_FRAMES_IN_FLIGHT);
        let submitted = frame.slots.iter().filter(|slot| **slot == SlotState::Submitted).count();
        assert!(submitted <= MAX_FRAMES_IN_FLIGHT);
        frame.step(FrameEvent::Presented).unwrap();
        assert!(frame.frames_in_flight() <= MAX_FRAMES_IN_FLIGHT);
        assert!(!frame.recreated_swapchain);
    }
    assert_eq!(frame.frames_in_flight(), 2);
}

#[test]
fn stale_surface_at_acquisition_marks_one_frame() {
    let mut frame = Frame::new(WINDOW, 3, MAX_FRAMES_IN_FLIGHT);
    whole_frame(&mut frame, 0);
    assert!(!frame.recreated_swapchain);
    let resized = Extent2D { width: 1024, height: 768 };
    frame.step(FrameEvent::Begin { dimensions: resized }).unwrap();
    frame.step(FrameEvent::FenceSignaled).unwrap();
    assert_eq!(
        frame.step(FrameEvent::AcquireOutOfDate),
        Ok(FrameAction::RecreateSwapchain { dimensions: resized })
    );
    assert!(!frame.recreated_swapchain);
    assert_eq!(
        frame.step(FrameEvent::SwapchainRecreated { extent: resized, image_count: 2 }),
        Ok(FrameAction::Finished)
    );
    assert!(frame.recreated_swapchain);
    assert_eq!(frame.extent, resized);
    assert_eq!(frame.image_count, 2);
    assert_eq!(frame.current_frame, 1);
    assert_eq!(frame.slots[1], SlotState::Idle);
    whole_frame(&mut frame, 1);
    assert!(!frame.recreated_swapchain);
    whole_frame(&mut frame, 0);
    assert!(!frame.recreated_swapchain);
}

#[test]
fn stale_surface_at_presentation_keeps_the_frame_submitted() {
    let mut frame = Frame::new(WINDOW, 3, MAX_FRAMES_IN_FLIGHT);
    frame.step(FrameEvent::Begin { dimensions: WINDOW }).unwrap();
    frame.step(FrameEvent::FenceSignaled).unwrap();
    frame.step(FrameEvent::ImageAcquired { image_index: 2 }).unwrap();
    frame.step(FrameEvent::Submitted).unwrap();
    assert_eq!(
        frame.step(FrameEvent::PresentOutOfDate),
        Ok(FrameAction::RecreateSwapchain { dimensions: WINDOW })
    );
    assert_eq!(frame.slots[0], SlotState::Presented);
    assert_eq!(frame.phase, FramePhase::Recreating { advance: true });
    frame.step(FrameEvent::SwapchainRecreated { extent: WINDOW, image_count: 3 }).unwrap();
    assert!(frame.recreated_swapchain);
    assert_eq!(frame.current_frame, 1);
    assert_eq!(frame.frames_in_flight(), 1);
    whole_frame(&mut frame, 0);
    assert!(!frame.recreated_swapchain);
}

#[test]
fn reports_out_of_turn_are_refused() {
    let mut frame = Frame::new(WINDOW, 2, MAX_FRAMES_IN_FLIGHT);
    let before = frame.clone();
    assert_eq!(frame.step(FrameEvent::Submitted), Err(Error::UnexpectedEvent));
    assert_eq!(frame.step(FrameEvent::FenceSignaled), Err(Error::UnexpectedEvent));
    assert_eq!(
        frame.step(FrameEvent::SwapchainRecreated { extent: WINDOW, image_count: 9 }),
        Err(Error::UnexpectedEvent)
    );
    assert_eq!(frame, before);
    frame.step(FrameEvent::Begin { dimensions: WINDOW }).unwrap();
    assert_eq!(frame.step(FrameEvent::Begin { dimensions: WINDOW }), Err(Error::UnexpectedEvent));
    frame.step(FrameEvent::FenceSignaled).unwrap();
    assert_eq!(
        frame.step(FrameEvent::ImageAcquired { image_index: 2 }),
        Err(Error::ImageIndexOutOfBounds)
    );
    assert_eq!(frame.phase, FramePhase::Acquiring);
    assert_eq!(
        frame.step(FrameEvent::ImageAcquired { image_index: 1 }),
        Ok(FrameAction::RecordAndSubmit { slot: 0, image_index: 1 })
    );
}

#[test]
fn stopping_waits_for_the_device_and_is_final() {
    let mut frame = Frame::new(WINDOW, 3, MAX_FRAMES_IN_FLIGHT);
    whole_frame(&mut frame, 0);
    whole_frame(&mut frame, 1);
    assert_eq!(frame.frames_in_flight(), 2);
    frame.step(FrameEvent::Begin { dimensions: WINDOW }).unwrap();
    assert_eq!(frame.step(FrameEvent::Stop), Err(Error::UnexpectedEvent));
    frame.step(FrameEvent::FenceSignaled).unwrap();
    frame.step(FrameEvent::ImageAcquired { image_index: 2 }).unwrap();
    frame.step(FrameEvent::Submitted).unwrap();
    frame.step(FrameEvent::Presented).unwrap();
    assert_eq!(frame.step(FrameEvent::DeviceIdle), Err(Error::UnexpectedEvent));
    assert_eq!(frame.step(FrameEvent::Stop), Ok(FrameAction::WaitForDeviceIdle));
    assert_eq!(frame.phase, FramePhase::Stopping);
    assert_eq!(frame.step(FrameEvent::Begin { dimensions: WINDOW }), Err(Error::UnexpectedEvent));
    assert_eq!(frame.frames_in_flight(), 2);
    assert_eq!(frame.step(FrameEvent::DeviceIdle), Ok(FrameAction::Finished));
    assert_eq!(frame.phase, FramePhase::Stopped);
    assert_eq!(frame.frames_in_flight(), 0);
    assert!(frame.is_well_formed());
    let stopped = frame.clone();
    assert_eq!(frame.step(FrameEvent::Begin { dimensions: WINDOW }), Err(Error::UnexpectedEvent));
    assert_eq!(frame.step(FrameEvent::Stop), Err(Error::UnexpectedEvent));
    assert_eq!(frame, stopped);
}

#[test]
fn only_a_stale_surface_is_recovered_from() {
    assert_eq!(acquire_event(Ok(2)), Ok(FrameEvent::ImageAcquired { image_index: 2 }));
    assert_eq!(acquire_event(Err(Error::SurfaceOutOfDate)), Ok(FrameEvent::AcquireOutOfDate));
    assert_eq!(acquire_event(Err(Error::Device)), Err(Error::Device));
    assert_eq!(present_event(Ok(false)), Ok(FrameEvent::Presented));
    assert_eq!(present_event(Ok(true)), Ok(FrameEvent::PresentOutOfDate));
    assert_eq!(present_event(Err(Error::SurfaceOutOfDate)), Ok(FrameEvent::PresentOutOfDate));
    assert_eq!(present_event(Err(Error::Device)), Err(Error::Device));
}

#[test]
fn tampered_engines_are_told_apart() {
    let mut frame = Frame::new(WINDOW, 3, MAX_FRAMES_IN_FLIGHT);
    assert!(frame.is_well_formed());
    frame.phase = FramePhase::Presenting { image_index: 0 };
    assert!(!frame.is_well_formed());
    frame.phase = FramePhase::Ready;
    frame.current_frame = 2;
    assert!(!frame.is_well_formed());
}

#[test]
fn render_device_starts_between_frames() {
    let device = RenderDevice::new(&[640, 480], 3, 5);
    assert_eq!(MAX_FRAMES_IN_FLIGHT, 2);
    assert_eq!(device.frame.slots, vec![SlotState::Idle, SlotState::Idle]);
    assert_eq!(device.frame.phase, FramePhase::Ready);
    assert_eq!(device.frame.extent, Extent2D { width: 640, height: 480 });
    assert_eq!(device.frame.image_count, 3);
    assert!(!device.frame.recreated_swapchain);
    assert_eq!(device.command_pool.queue_family_index, 5);
    assert!(device.command_pool.transient);
    assert_eq!(device.graphics_queue_family_index, 5);
}

fn geometry() -> GeometryBuffer {
    GeometryBuffer {
        vertex_buffer: BufferHandle { raw: 1 },
        index_buffer: Some(BufferHandle { raw: 2 }),
    }
}

fn draw(index_count: u32, first_index: u32) -> DrawCommand {
    DrawCommand::DrawIndexed {
        index_count,
        instance_count: 1,
        first_index,
        vertex_offset: 0,
        first_instance: 0,
    }
}

#[test]
fn cube_draws_faces_loops_and_segments() {
    let cube = Cube::new(geometry()).unwrap();
    let bind = DrawCommand::BindGeometry { geometry: geometry() };
    let faces = (INDICES.len() - NUMBER_OF_LINE_SEGMENTS) as u32;
    assert_eq!(cube.draw(), vec![bind, draw(faces, 0)]);
    assert_eq!(cube.draw_loops(), vec![bind, draw(6, 0), draw(6, 12)]);
    assert_eq!(cube.draw_segments(), vec![bind, draw(8, 36)]);
    assert_eq!(
        Cube::buffer_sizes(),
        ((VERTICES.len() * 4) as u64, (INDICES.len() * 4) as u64)
    );
    assert_eq!(f32::from_bits(VERTICES[0]), -0.5);
    assert_eq!(f32::from_bits(VERTICES[3]), 0.5);
    assert_eq!(Cube::vertex_attributes()[0].format, Format::R32G32B32Sfloat);
    assert_eq!(Cube::vertex_inputs()[0].stride, 12);
    let bare = GeometryBuffer { vertex_buffer: BufferHandle { raw: 1 }, index_buffer: None };
    assert_eq!(Cube::new(bare), Err(Error::MissingIndexBuffer));
}

#[test]
fn cube_render_needs_its_pipelines() {
    let mut render = CubeRender::new(Cube::new(geometry()).unwrap());
    assert_eq!(render.solid_pipeline, None);
    assert_eq!(render.issue_commands(true), Err(Error::MissingPipeline));
    let settings = render.create_pipeline(SampleCount::Type4);
    assert_eq!(settings.len(), 3);
    assert_eq!(settings[0].polygon_mode, PolygonMode::Fill);
    assert_eq!(settings[0].topology, PrimitiveTopology::TriangleList);
    assert!(!settings[0].dynamic_lines);
    assert_eq!(settings[1].topology, PrimitiveTopology::LineStrip);
    assert_eq!(settings[2].topology, PrimitiveTopology::LineList);
    assert!(settings[2].dynamic_lines);
    assert_eq!(settings[2].rasterization_samples, SampleCount::Type4);
    assert_eq!(settings[1].push_constant_size, PUSH_CONSTANT_SIZE);
    render.install_pipelines(
        Pipeline { raw: 1 },
        Pipeline { raw: 2 },
        Pipeline { raw: 3 },
        PipelineLayout { raw: 4 },
    );
    let solid = render.issue_commands(true).unwrap();
    assert_eq!(solid.len(), 4);
    assert_eq!(solid[0], DrawCommand::PushConstants { layout: PipelineLayout { raw: 4 } });
    assert_eq!(solid[1], DrawCommand::BindPipeline { pipeline: Pipeline { raw: 1 } });
    assert_eq!(solid[3], draw(36, 0));
    let wireframe = render.issue_commands(false).unwrap();
    assert_eq!(wireframe.len(), 10);
    assert_eq!(wireframe[1], DrawCommand::BindPipeline { pipeline: Pipeline { raw: 2 } });
    assert_eq!(wireframe[2], DrawCommand::SetWireframeLineWidth);
    assert_eq!(wireframe[3], DrawCommand::SetWireframeDepthBias);
    assert_eq!(wireframe[7], DrawCommand::BindPipeline { pipeline: Pipeline { raw: 3 } });
    assert_eq!(wireframe[9], draw(8, 36));
    render.create_pipeline(SampleCount::Type1);
    assert_eq!(render.solid_pipeline, Some(Pipeline { raw: 1 }));
    assert_eq!(render.loop_pipeline, None);
    assert_eq!(render.issue_commands(true), Err(Error::MissingPipeline));
}

#[test]
fn cube_shaders_lie_under_assets() {
    let paths = CubeRender::shader_paths().unwrap();
    assert_eq!(paths.vertex, "assets/shaders/cube/cube.vert.spv");
    assert_eq!(paths.fragment, "assets/shaders/cube/cube.frag.spv");
}
