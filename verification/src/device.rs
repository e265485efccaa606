use vstd::prelude::*;
use crate::frame::{spec_idle_slots, Frame, FramePhase, FrameView};
use crate::types::Extent2D;

verus! {

/// How many frames the CPU may run ahead of the GPU.
pub const MAX_FRAMES_IN_FLIGHT: usize = 2;

/// What it takes to create the pool of one-shot command buffers.
#[derive(Debug, Clone, Copy, PartialEq, Eq, Structural)]
pub struct CommandPoolCreateInfo {
    pub queue_family_index: u32,
    /// Command buffers of the pool are short-lived.
    pub transient: bool,
}

/// What a renderer needs beside the device itself: the frame engine, and
/// the description of the command pool on the graphics queue.
#[derive(Debug, Clone, PartialEq, Eq)]
pub struct RenderDevice {
    pub command_pool: CommandPoolCreateInfo,
    pub frame: Frame,
    pub graphics_queue_family_index: u32,
}

impl RenderDevice {
    /// The render device for a window of `dimensions` (width, then
    /// height) whose surface has `image_count` images: a frame engine of
    /// `MAX_FRAMES_IN_FLIGHT` idle slots, and a transient command pool on
    /// the graphics queue family.
    pub fn new(dimensions: &[u32; 2], image_count: u32, graphics_queue_family_index: u32) -> (device:
        Self)
        ensures
            device.graphics_queue_family_index == graphics_queue_family_index,
            device.command_pool == (CommandPoolCreateInfo {
                queue_family_index: graphics_queue_family_index,
                transient: true,
            }),
            device.frame@.spec_well_formed(),
            device.frame@ == (FrameView {
                current_frame: 0,
                slots: spec_idle_slots(MAX_FRAMES_IN_FLIGHT as nat),
                phase: FramePhase::Ready,
                recreated_swapchain: false,
                extent: Extent2D { width: dimensions[0], height: dimensions[1] },
                image_count,
                dimensions: Extent2D { width: dimensions[0], height: dimensions[1] },
            }),
    {
        let extent = Extent2D { width: dimensions[0], height: dimensions[1] };
        let frame = Frame::new(extent, image_count, MAX_FRAMES_IN_FLIGHT);
        let command_pool = CommandPoolCreateInfo {
            queue_family_index: graphics_queue_family_index,
            transient: true,
        };
        Self { command_pool, frame, graphics_queue_family_index }
    }
}

} // verus!
