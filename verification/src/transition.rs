use vstd::prelude::*;
use crate::error::Error;
use crate::types::{
    AccessFlags, ImageHandle, ImageLayout, PipelineStageFlags, QUEUE_FAMILY_IGNORED,
};

verus! {

/// A change of layout for a range of mip levels of an image, with the
/// accesses and pipeline stages that it separates.
#[derive(Debug, Clone, Copy, PartialEq, Eq, Structural)]
pub struct ImageLayoutTransition {
    pub base_mip_level: u32,
    pub level_count: u32,
    pub layer_count: u32,
    pub old_layout: ImageLayout,
    pub new_layout: ImageLayout,
    pub src_access_mask: AccessFlags,
    pub dst_access_mask: AccessFlags,
    pub src_stage_mask: PipelineStageFlags,
    pub dst_stage_mask: PipelineStageFlags,
}

/// Collects the fields of an `ImageLayoutTransition` one by one. The base
/// level defaults to 0, the level and layer counts to 1; the layouts and
/// the four masks have no default.
#[derive(Debug, Clone, Copy, PartialEq, Eq, Structural)]
pub struct ImageLayoutTransitionBuilder {
    pub base_mip_level: Option<u32>,
    pub level_count: Option<u32>,
    pub layer_count: Option<u32>,
    pub old_layout: Option<ImageLayout>,
    pub new_layout: Option<ImageLayout>,
    pub src_access_mask: Option<AccessFlags>,
    pub dst_access_mask: Option<AccessFlags>,
    pub src_stage_mask: Option<PipelineStageFlags>,
    pub dst_stage_mask: Option<PipelineStageFlags>,
}

impl ImageLayoutTransitionBuilder {
    /// Every field without a default has been set.
    pub open spec fn spec_complete(self) -> bool {
        &&& self.old_layout is Some
        &&& self.new_layout is Some
        &&& self.src_access_mask is Some
        &&& self.dst_access_mask is Some
        &&& self.src_stage_mask is Some
        &&& self.dst_stage_mask is Some
    }

    /// The transition that a complete builder stands for.
    pub open spec fn spec_value(self) -> ImageLayoutTransition
        recommends
            self.spec_complete(),
    {
        ImageLayoutTransition {
            base_mip_level: match self.base_mip_level {
                Some(level) => level,
                None => 0,
            },
            level_count: match self.level_count {
                Some(count) => count,
                None => 1,
            },
            layer_count: match self.layer_count {
                Some(count) => count,
                None => 1,
            },
            old_layout: self.old_layout->0,
            new_layout: self.new_layout->0,
            src_access_mask: self.src_access_mask->0,
            dst_access_mask: self.dst_access_mask->0,
            src_stage_mask: self.src_stage_mask->0,
            dst_stage_mask: self.dst_stage_mask->0,
        }
    }

    /// A builder with no field set.
    pub fn default() -> (builder: Self)
        ensures
            builder == (ImageLayoutTransitionBuilder {
                base_mip_level: None,
                level_count: None,
                layer_count: None,
                old_layout: None,
                new_layout: None,
                src_access_mask: None,
                dst_access_mask: None,
                src_stage_mask: None,
                dst_stage_mask: None,
            }),
    {
        ImageLayoutTransitionBuilder {
            base_mip_level: None,
            level_count: None,
            layer_count: None,
            old_layout: None,
            new_layout: None,
            src_access_mask: None,
            dst_access_mask: None,
            src_stage_mask: None,
            dst_stage_mask: None,
        }
    }

    pub fn base_mip_level(self, value: u32) -> (builder: Self)
        ensures
            builder == (ImageLayoutTransitionBuilder { base_mip_level: Some(value), ..self }),
    {
        ImageLayoutTransitionBuilder { base_mip_level: Some(value), ..self }
    }

    pub fn level_count(self, value: u32) -> (builder: Self)
        ensures
            builder == (ImageLayoutTransitionBuilder { level_count: Some(value), ..self }),
    {
        ImageLayoutTransitionBuilder { level_count: Some(value), ..self }
    }

    pub fn layer_count(self, value: u32) -> (builder: Self)
        ensures
            builder == (ImageLayoutTransitionBuilder { layer_count: Some(value), ..self }),
    {
        ImageLayoutTransitionBuilder { layer_count: Some(value), ..self }
    }

    pub fn old_layout(self, value: ImageLayout) -> (builder: Self)
        ensures
            builder == (ImageLayoutTransitionBuilder { old_layout: Some(value), ..self }),
    {
        ImageLayoutTransitionBuilder { old_layout: Some(value), ..self }
    }

    pub fn new_layout(self, value: ImageLayout) -> (builder: Self)
        ensures
            builder == (ImageLayoutTransitionBuilder { new_layout: Some(value), ..self }),
    {
        ImageLayoutTransitionBuilder { new_layout: Some(value), ..self }
    }

    pub fn src_access_mask(self, value: AccessFlags) -> (builder: Self)
        ensures
            builder == (ImageLayoutTransitionBuilder { src_access_mask: Some(value), ..self }),
    {
        ImageLayoutTransitionBuilder { src_access_mask: Some(value), ..self }
    }

    pub fn dst_access_mask(self, value: AccessFlags) -> (builder: Self)
        ensures
            builder == (ImageLayoutTransitionBuilder { dst_access_mask: Some(value), ..self }),
    {
        ImageLayoutTransitionBuilder { dst_access_mask: Some(value), ..self }
    }

    pub fn src_stage_mask(self, value: PipelineStageFlags) -> (builder: Self)
        ensures
            builder == (ImageLayoutTransitionBuilder { src_stage_mask: Some(value), ..self }),
    {
        ImageLayoutTransitionBuilder { src_stage_mask: Some(value), ..self }
    }

    pub fn dst_stage_mask(self, value: PipelineStageFlags) -> (builder: Self)
        ensures
            builder == (ImageLayoutTransitionBuilder { dst_stage_mask: Some(value), ..self }),
    {
        ImageLayoutTransitionBuilder { dst_stage_mask: Some(value), ..self }
    }

    /// The transition, if every field without a default was set.
    pub fn build(self) -> (outcome: Result<ImageLayoutTransition, Error>)
        ensures
            self.spec_complete() ==> outcome == Ok::<ImageLayoutTransition, Error>(
                self.spec_value(),
            ),
            !self.spec_complete() ==> outcome == Err::<ImageLayoutTransition, Error>(
                Error::UninitializedField,
            ),
    {
        match (
            self.old_layout,
            self.new_layout,
            self.src_access_mask,
            self.dst_access_mask,
            self.src_stage_mask,
            self.dst_stage_mask,
        ) {
            (
                Some(old_layout),
                Some(new_layout),
                Some(src_access_mask),
                Some(dst_access_mask),
                Some(src_stage_mask),
                Some(dst_stage_mask),
            ) => Ok(
                ImageLayoutTransition {
                    base_mip_level: match self.base_mip_level {
                        Some(level) => level,
                        None => 0,
                    },
                    level_count: match self.level_count {
                        Some(count) => count,
                        None => 1,
                    },
                    layer_count: match self.layer_count {
                        Some(count) => count,
                        None => 1,
                    },
                    old_layout,
                    new_layout,
                    src_access_mask,
                    dst_access_mask,
                    src_stage_mask,
                    dst_stage_mask,
                },
            ),
            _ => Err(Error::UninitializedField),
        }
    }
}

/// Which part of a pixel a command touches.
#[derive(Debug, Clone, Copy, PartialEq, Eq, Structural)]
pub enum ImageAspect {
    Color,
    Depth,
}

/// A range of mip levels and array layers of an image.
#[derive(Debug, Clone, Copy, PartialEq, Eq, Structural)]
pub struct ImageSubresourceRange {
    pub aspect: ImageAspect,
    pub base_mip_level: u32,
    pub level_count: u32,
    pub base_array_layer: u32,
    pub layer_count: u32,
}

/// The memory barrier that carries out a layout transition on one image.
#[derive(Debug, Clone, Copy, PartialEq, Eq, Structural)]
pub struct ImageMemoryBarrier {
    pub old_layout: ImageLayout,
    pub new_layout: ImageLayout,
    pub src_queue_family_index: u32,
    pub dst_queue_family_index: u32,
    pub image: ImageHandle,
    pub subresource_range: ImageSubresourceRange,
    pub src_access_mask: AccessFlags,
    pub dst_access_mask: AccessFlags,
}

/// A pipeline barrier with one image memory barrier in it.
#[derive(Debug, Clone, Copy, PartialEq, Eq, Structural)]
pub struct PipelineBarrier {
    pub src_stage_mask: PipelineStageFlags,
    pub dst_stage_mask: PipelineStageFlags,
    pub image_memory_barrier: ImageMemoryBarrier,
}

/// The barrier that applies `info` to the colour aspect of `image`, from
/// its first array layer on, without a change of queue family.
pub open spec fn spec_transition_barrier(
    image: ImageHandle,
    info: ImageLayoutTransition,
) -> PipelineBarrier {
    PipelineBarrier {
        src_stage_mask: info.src_stage_mask,
        dst_stage_mask: info.dst_stage_mask,
        image_memory_barrier: ImageMemoryBarrier {
            old_layout: info.old_layout,
            new_layout: info.new_layout,
            src_queue_family_index: QUEUE_FAMILY_IGNORED,
            dst_queue_family_index: QUEUE_FAMILY_IGNORED,
            image,
            subresource_range: ImageSubresourceRange {
                aspect: ImageAspect::Color,
                base_mip_level: info.base_mip_level,
                level_count: info.level_count,
                base_array_layer: 0,
                layer_count: info.layer_count,
            },
            src_access_mask: info.src_access_mask,
            dst_access_mask: info.dst_access_mask,
        },
    }
}

/// Describes the pipeline barrier that moves `image` through the layout
/// transition `info`. Recording and submitting it is the caller's part.
pub fn transition_image(image: ImageHandle, info: &ImageLayoutTransition) -> (barrier:
    PipelineBarrier)
    ensures
        barrier == spec_transition_barrier(image, *info),
{
    let subresource_range = ImageSubresourceRange {
        aspect: ImageAspect::Color,
        base_mip_level: info.base_mip_level,
        level_count: info.level_count,
        base_array_layer: 0,
        layer_count: info.layer_count,
    };
    let image_memory_barrier = ImageMemoryBarrier {
        old_layout: info.old_layout,
        new_layout: info.new_layout,
        src_queue_family_index: QUEUE_FAMILY_IGNORED,
        dst_queue_family_index: QUEUE_FAMILY_IGNORED,
        image,
        subresource_range,
        src_access_mask: info.src_access_mask,
        dst_access_mask: info.dst_access_mask,
    };
    PipelineBarrier {
        src_stage_mask: info.src_stage_mask,
        dst_stage_mask: info.dst_stage_mask,
        image_memory_barrier,
    }
}

} // verus!
