use vstd::prelude::*;
use crate::command::{
    spec_run, spec_step, lemma_run_push, BlitImage, BufferImageCopy, BufferToImageCopy, Filter,
    ImageBlit, ImageCommand, ImageSubresourceLayers,
};
use crate::description::ImageDescription;
use crate::error::Error;
use crate::mip::{
    lemma_level_dimension_is_shift, spec_level_dimension, spec_next_dimension, spec_shifted_side,
    MipmapBlitDimensions,
};
use crate::transition::{
    spec_transition_barrier, transition_image, ImageAspect, ImageLayoutTransition,
    ImageLayoutTransitionBuilder, ImageSubresourceRange,
};
use crate::types::{
    AccessFlags, Extent3D, Format, ImageHandle, ImageLayout, Offset3D, PipelineStageFlags,
    ACCESS_NONE, ACCESS_SHADER_READ, ACCESS_TRANSFER_READ, ACCESS_TRANSFER_WRITE,
    STAGE_FRAGMENT_SHADER, STAGE_TOP_OF_PIPE, STAGE_TRANSFER,
};

verus! {

/// Anything that stands for a GPU image.
pub trait Image {
    spec fn spec_handle(&self) -> ImageHandle;

    fn handle(&self) -> (handle: ImageHandle)
        ensures
            handle == self.spec_handle(),
    ;
}

/// An image that somebody else owns, such as one of the presentation
/// surface.
#[derive(Debug, Clone, Copy, PartialEq, Eq, Structural)]
pub struct RawImage(pub ImageHandle);

impl Image for RawImage {
    open spec fn spec_handle(&self) -> ImageHandle {
        self.0
    }

    fn handle(&self) -> (handle: ImageHandle) {
        self.0
    }
}

/// An image with GPU memory of its own. It records the handle and the
/// size of the one allocation behind it. There is no copy of it: who
/// holds it is the one to release the allocation, once.
#[derive(Debug, PartialEq, Eq)]
pub struct AllocatedImage {
    pub handle: ImageHandle,
    pub allocation_size: u64,
}

/// What the GPU memory allocator answered to a request for an image.
#[derive(Debug, Clone, Copy, PartialEq, Eq, Structural)]
pub enum AllocationOutcome {
    Created { handle: ImageHandle, size: u64 },
    /// The allocator could not satisfy the request.
    Refused,
}

/// One step of tearing a resource down.
#[derive(Debug, Clone, Copy, PartialEq, Eq, Structural)]
pub enum TeardownCommand {
    DestroyImageView { view: ImageViewHandle },
    /// Destroy the image and release the allocation behind it.
    DestroyImage { image: ImageHandle },
}

impl Image for AllocatedImage {
    open spec fn spec_handle(&self) -> ImageHandle {
        self.handle
    }

    fn handle(&self) -> (handle: ImageHandle) {
        self.handle
    }
}

/// All levels from the first, from undefined contents to a copy target.
pub open spec fn spec_base_to_transfer_dst(level_count: u32) -> ImageLayoutTransition {
    ImageLayoutTransition {
        base_mip_level: 0,
        level_count,
        layer_count: 1,
        old_layout: ImageLayout::Undefined,
        new_layout: ImageLayout::TransferDstOptimal,
        src_access_mask: AccessFlags { bits: ACCESS_NONE },
        dst_access_mask: AccessFlags { bits: ACCESS_TRANSFER_WRITE },
        src_stage_mask: PipelineStageFlags { bits: STAGE_TOP_OF_PIPE },
        dst_stage_mask: PipelineStageFlags { bits: STAGE_TRANSFER },
    }
}

/// One level, from copy target to shader input.
pub open spec fn spec_base_to_shader_read(base_mip_level: u32) -> ImageLayoutTransition {
    ImageLayoutTransition {
        base_mip_level,
        level_count: 1,
        layer_count: 1,
        old_layout: ImageLayout::TransferDstOptimal,
        new_layout: ImageLayout::ShaderReadOnlyOptimal,
        src_access_mask: AccessFlags { bits: ACCESS_TRANSFER_WRITE },
        dst_access_mask: AccessFlags { bits: ACCESS_SHADER_READ },
        src_stage_mask: PipelineStageFlags { bits: STAGE_TRANSFER },
        dst_stage_mask: PipelineStageFlags { bits: STAGE_FRAGMENT_SHADER },
    }
}

/// One level, from copy target to copy source.
pub open spec fn spec_mip_transfer_dst_to_src(base_mip_level: u32) -> ImageLayoutTransition {
    ImageLayoutTransition {
        base_mip_level,
        level_count: 1,
        layer_count: 1,
        old_layout: ImageLayout::TransferDstOptimal,
        new_layout: ImageLayout::TransferSrcOptimal,
        src_access_mask: AccessFlags { bits: ACCESS_TRANSFER_WRITE },
        dst_access_mask: AccessFlags { bits: ACCESS_TRANSFER_READ },
        src_stage_mask: PipelineStageFlags { bits: STAGE_TRANSFER },
        dst_stage_mask: PipelineStageFlags { bits: STAGE_TRANSFER },
    }
}

/// One level, from copy source to shader input.
pub open spec fn spec_mip_to_shader_read(base_mip_level: u32) -> ImageLayoutTransition {
    ImageLayoutTransition {
        base_mip_level,
        level_count: 1,
        layer_count: 1,
        old_layout: ImageLayout::TransferSrcOptimal,
        new_layout: ImageLayout::ShaderReadOnlyOptimal,
        src_access_mask: AccessFlags { bits: ACCESS_TRANSFER_READ },
        dst_access_mask: AccessFlags { bits: ACCESS_SHADER_READ },
        src_stage_mask: PipelineStageFlags { bits: STAGE_TRANSFER },
        dst_stage_mask: PipelineStageFlags { bits: STAGE_FRAGMENT_SHADER },
    }
}

/// The command that carries out a transition on `image`.
pub open spec fn spec_transition_command(
    image: ImageHandle,
    transition: ImageLayoutTransition,
) -> ImageCommand {
    ImageCommand::PipelineBarrier(spec_transition_barrier(image, transition))
}

/// The copy of a whole `width` by `height` picture from the start of the
/// staging buffer into the first level and layer of `image`.
pub open spec fn spec_copy_command(image: ImageHandle, width: u32, height: u32) -> ImageCommand {
    ImageCommand::CopyBufferToImage(
        BufferToImageCopy {
            destination: image,
            region: BufferImageCopy {
                buffer_offset: 0,
                buffer_row_length: 0,
                buffer_image_height: 0,
                image_subresource: ImageSubresourceLayers {
                    aspect: ImageAspect::Color,
                    mip_level: 0,
                    base_array_layer: 0,
                    layer_count: 1,
                },
                image_offset: Offset3D { x: 0, y: 0, z: 0 },
                image_extent: Extent3D { width, height, depth: 1 },
            },
        },
    )
}

/// The linear blit of level `level - 1` of `image`, whole, into level
/// `level`, whole.
pub open spec fn spec_blit_command(
    image: ImageHandle,
    dimensions: MipmapBlitDimensions,
    level: u32,
) -> ImageCommand {
    ImageCommand::BlitImage(
        BlitImage {
            src_image: image,
            src_image_layout: ImageLayout::TransferSrcOptimal,
            dst_image: image,
            dst_image_layout: ImageLayout::TransferDstOptimal,
            region: ImageBlit {
                src_offsets: [
                    Offset3D { x: 0, y: 0, z: 0 },
                    Offset3D { x: dimensions.width, y: dimensions.height, z: 1 },
                ],
                src_subresource: ImageSubresourceLayers {
                    aspect: ImageAspect::Color,
                    mip_level: (level - 1) as u32,
                    base_array_layer: 0,
                    layer_count: 1,
                },
                dst_offsets: [
                    Offset3D { x: 0, y: 0, z: 0 },
                    Offset3D { x: dimensions.next_width, y: dimensions.next_height, z: 1 },
                ],
                dst_subresource: ImageSubresourceLayers {
                    aspect: ImageAspect::Color,
                    mip_level: level,
                    base_array_layer: 0,
                    layer_count: 1,
                },
            },
            filter: Filter::Linear,
        },
    )
}

/// The blit extents for level `level` of a pyramid whose base level
/// measures `width` by `height`.
pub open spec fn spec_level_blit(width: int, height: int, level: nat) -> MipmapBlitDimensions {
    let level_width = spec_level_dimension(width, level);
    let level_height = spec_level_dimension(height, level);
    MipmapBlitDimensions {
        width: level_width as i32,
        height: level_height as i32,
        next_width: spec_next_dimension(level_width) as i32,
        next_height: spec_next_dimension(level_height) as i32,
    }
}

/// The blit that fills a level reads the level before it, whose sides
/// are those of the base shifted right by its number, and writes sides
/// shifted by one bit more. No side of either is under one pixel.
pub proof fn lemma_level_blit_is_shift(width: int, height: int, level: nat)
    requires
        1 <= width <= i32::MAX,
        1 <= height <= i32::MAX,
    ensures
        spec_level_blit(width, height, level) == (MipmapBlitDimensions {
            width: spec_shifted_side(width, level) as i32,
            height: spec_shifted_side(height, level) as i32,
            next_width: spec_shifted_side(width, level + 1) as i32,
            next_height: spec_shifted_side(height, level + 1) as i32,
        }),
        1 <= spec_shifted_side(width, level) <= width,
        1 <= spec_shifted_side(height, level) <= height,
        1 <= spec_shifted_side(width, level + 1) <= width,
        1 <= spec_shifted_side(height, level + 1) <= height,
{
    lemma_level_dimension_is_shift(width, level);
    lemma_level_dimension_is_shift(height, level);
    lemma_level_dimension_is_shift(width, level + 1);
    lemma_level_dimension_is_shift(height, level + 1);
    lemma_shifted_side_bounds(width, level);
    lemma_shifted_side_bounds(height, level);
    lemma_shifted_side_bounds(width, level + 1);
    lemma_shifted_side_bounds(height, level + 1);
}

/// The blit that fills level `level` of an image whose base measures
/// `width` by `height`: from the sides shifted right by `level - 1`
/// bits to the sides shifted by `level` bits, none under one pixel.
pub open spec fn spec_shifted_blit(
    image: ImageHandle,
    width: int,
    height: int,
    level: int,
) -> ImageCommand {
    spec_blit_command(
        image,
        MipmapBlitDimensions {
            width: spec_shifted_side(width, (level - 1) as nat) as i32,
            height: spec_shifted_side(height, (level - 1) as nat) as i32,
            next_width: spec_shifted_side(width, level as nat) as i32,
            next_height: spec_shifted_side(height, level as nat) as i32,
        },
        level as u32,
    )
}

proof fn lemma_shifted_side_bounds(side: int, level: nat)
    requires
        side >= 1,
    ensures
        1 <= spec_shifted_side(side, level) <= side,
{
    vstd::arithmetic::power2::lemma_pow2_pos(level);
    let divisor = vstd::arithmetic::power2::pow2(level) as int;
    assert(side / divisor <= side) by (nonlinear_arith)
        requires
            side >= 1,
            divisor >= 1,
    ;
}

/// Command number `index` of mipmap generation. Every level after the
/// first takes three: the level before it becomes a copy source, is
/// blitted into it at half the size, and becomes shader input.
pub open spec fn spec_mipmap_command(
    image: ImageHandle,
    width: int,
    height: int,
    index: int,
) -> ImageCommand {
    let source = index / 3;
    if index % 3 == 0 {
        spec_transition_command(image, spec_mip_transfer_dst_to_src(source as u32))
    } else if index % 3 == 1 {
        spec_blit_command(
            image,
            spec_level_blit(width, height, source as nat),
            (source + 1) as u32,
        )
    } else {
        spec_transition_command(image, spec_mip_to_shader_read(source as u32))
    }
}

/// The commands that fill levels 1 to `mip_levels - 1` from level 0.
pub open spec fn spec_mipmap_commands(
    image: ImageHandle,
    width: int,
    height: int,
    mip_levels: nat,
) -> Seq<ImageCommand> {
    Seq::new(
        if mip_levels >= 1 {
            (3 * (mip_levels - 1)) as nat
        } else {
            0
        },
        |index: int| spec_mipmap_command(image, width, height, index),
    )
}

/// The commands of a whole upload: stage the pixels, make every level a
/// copy target, copy into the first, generate the others, and make the
/// last one shader input.
pub open spec fn spec_upload_commands(
    image: AllocatedImage,
    description: ImageDescription,
) -> Seq<ImageCommand> {
    seq![
        ImageCommand::StageUpload {
            buffer_size: image.allocation_size,
            byte_count: description.pixels@.len() as usize,
        },
        spec_transition_command(image.handle, spec_base_to_transfer_dst(description.mip_levels)),
        spec_copy_command(image.handle, description.width, description.height),
    ] + spec_mipmap_commands(
        image.handle,
        description.width as int,
        description.height as int,
        description.mip_levels as nat,
    ) + seq![
        spec_transition_command(
            image.handle,
            spec_base_to_shader_read((description.mip_levels - 1) as u32),
        ),
    ]
}

/// The layouts of a new image of `mip_levels` levels.
pub open spec fn spec_fresh_levels(mip_levels: nat) -> Seq<ImageLayout> {
    Seq::new(mip_levels, |level: int| ImageLayout::Undefined)
}

/// The layouts in the middle of mipmap generation: the first `done`
/// levels are shader input, the others still copy targets.
pub open spec fn spec_pyramid_levels(mip_levels: nat, done: nat) -> Seq<ImageLayout> {
    Seq::new(
        mip_levels,
        |level: int|
            if level < done {
                ImageLayout::ShaderReadOnlyOptimal
            } else {
                ImageLayout::TransferDstOptimal
            },
    )
}

/// The layouts of an image that shaders can sample at every level.
pub open spec fn spec_readable_levels(mip_levels: nat) -> Seq<ImageLayout> {
    Seq::new(mip_levels, |level: int| ImageLayout::ShaderReadOnlyOptimal)
}

/// Mipmap generation works on an image whose levels are all copy
/// targets, whatever its size, and leaves every level but the last as
/// shader input: each command finds the layouts that it needs.
pub proof fn lemma_mipmaps_run(
    image: ImageHandle,
    width: int,
    height: int,
    mip_levels: nat,
    generated: nat,
)
    requires
        1 <= generated <= mip_levels <= u32::MAX,
    ensures
        spec_run(
            spec_pyramid_levels(mip_levels, 0),
            spec_mipmap_commands(image, width, height, generated),
        ) == Some(spec_pyramid_levels(mip_levels, (generated - 1) as nat)),
    decreases generated,
{
    let start = spec_pyramid_levels(mip_levels, 0);
    let commands = spec_mipmap_commands(image, width, height, generated);
    if generated == 1 {
        assert(commands.len() == 0);
    } else {
        lemma_mipmaps_run(image, width, height, mip_levels, (generated - 1) as nat);
        let earlier = spec_mipmap_commands(image, width, height, (generated - 1) as nat);
        let source = generated - 2;
        let base = 3 * source;
        let to_source = spec_mipmap_command(image, width, height, base);
        let blit = spec_mipmap_command(image, width, height, base + 1);
        let to_read = spec_mipmap_command(image, width, height, base + 2);
        assert(commands =~= earlier.push(to_source).push(blit).push(to_read));
        lemma_run_push(start, earlier, to_source);
        lemma_run_push(start, earlier.push(to_source), blit);
        lemma_run_push(start, earlier.push(to_source).push(blit), to_read);
        let before = spec_pyramid_levels(mip_levels, source as nat);
        let reading = Seq::new(
            mip_levels,
            |level: int|
                if level < source {
                    ImageLayout::ShaderReadOnlyOptimal
                } else if level == source {
                    ImageLayout::TransferSrcOptimal
                } else {
                    ImageLayout::TransferDstOptimal
                },
        );
        assert(base / 3 == source && base % 3 == 0);
        assert((base + 1) / 3 == source && (base + 1) % 3 == 1);
        assert((base + 2) / 3 == source && (base + 2) % 3 == 2);
        assert(spec_step(before, to_source) == Some(reading)) by {
            assert(spec_step(before, to_source)->0 =~= reading);
        }
        assert(spec_step(reading, blit) == Some(reading));
        assert(spec_step(reading, to_read) == Some(
            spec_pyramid_levels(mip_levels, (generated - 1) as nat),
        )) by {
            assert(spec_step(reading, to_read)->0 =~= spec_pyramid_levels(
                mip_levels,
                (generated - 1) as nat,
            ));
        }
    }
}

/// Running commands one list after another is running their
/// concatenation.
pub proof fn lemma_run_concat(
    levels: Seq<ImageLayout>,
    first: Seq<ImageCommand>,
    second: Seq<ImageCommand>,
)
    ensures
        spec_run(levels, first + second) == match spec_run(levels, first) {
            Some(between) => spec_run(between, second),
            None => None,
        },
    decreases second.len(),
{
    if second.len() == 0 {
        assert(first + second =~= first);
    } else {
        lemma_run_concat(levels, first, second.drop_last());
        assert((first + second).drop_last() =~= first + second.drop_last());
        assert((first + second).last() == second.last());
    }
}

/// An upload works on a new image and leaves it where shaders can sample
/// every level: no command of it meets a layout that it cannot work on.
pub proof fn lemma_upload_leaves_image_readable(
    image: AllocatedImage,
    description: ImageDescription,
)
    requires
        description.mip_levels >= 1,
    ensures
        spec_run(
            spec_fresh_levels(description.mip_levels as nat),
            spec_upload_commands(image, description),
        ) == Some(spec_readable_levels(description.mip_levels as nat)),
{
    let count = description.mip_levels as nat;
    let fresh = spec_fresh_levels(count);
    let stage = ImageCommand::StageUpload {
        buffer_size: image.allocation_size,
        byte_count: description.pixels@.len() as usize,
    };
    let to_target = spec_transition_command(
        image.handle,
        spec_base_to_transfer_dst(description.mip_levels),
    );
    let copy = spec_copy_command(image.handle, description.width, description.height);
    let head = seq![stage, to_target, copy];
    let middle = spec_mipmap_commands(
        image.handle,
        description.width as int,
        description.height as int,
        count,
    );
    let last = spec_transition_command(
        image.handle,
        spec_base_to_shader_read((description.mip_levels - 1) as u32),
    );
    let targets = spec_pyramid_levels(count, 0);
    assert(head =~= Seq::<ImageCommand>::empty().push(stage).push(to_target).push(copy));
    lemma_run_push(fresh, Seq::<ImageCommand>::empty(), stage);
    lemma_run_push(fresh, Seq::<ImageCommand>::empty().push(stage), to_target);
    lemma_run_push(fresh, Seq::<ImageCommand>::empty().push(stage).push(to_target), copy);
    assert(spec_step(fresh, to_target) == Some(targets)) by {
        assert(spec_step(fresh, to_target)->0 =~= targets);
    }
    assert(spec_run(fresh, head) == Some(targets));
    lemma_mipmaps_run(
        image.handle,
        description.width as int,
        description.height as int,
        count,
        count,
    );
    lemma_run_concat(fresh, head, middle);
    let nearly = spec_pyramid_levels(count, (count - 1) as nat);
    assert(spec_run(fresh, head + middle) == Some(nearly));
    assert(head + middle + seq![last] =~= (head + middle).push(last));
    lemma_run_push(fresh, head + middle, last);
    assert(spec_step(nearly, last) == Some(spec_readable_levels(count))) by {
        assert(spec_step(nearly, last)->0 =~= spec_readable_levels(count));
    }
}

fn finished(built: Result<ImageLayoutTransition, Error>) -> (transition: ImageLayoutTransition)
    requires
        built is Ok,
    ensures
        transition == built->Ok_0,
{
    match built {
        Ok(transition) => transition,
        Err(_) => vstd::pervasive::unreached(),
    }
}

impl AllocatedImage {
    /// Records an image that the allocator created, with the size of its
    /// allocation in bytes.
    pub fn new(handle: ImageHandle, allocation_size: u64) -> (image: Self)
        ensures
            image.handle == handle,
            image.allocation_size == allocation_size,
    {
        Self { handle, allocation_size }
    }

    /// The image that the allocator created, or the error that it
    /// refused. A refusal is final: nothing is tried again.
    pub fn from_allocation(outcome: AllocationOutcome) -> (image: Result<Self, Error>)
        ensures
            match outcome {
                AllocationOutcome::Created { handle, size } => image == Ok::<Self, Error>(
                    AllocatedImage { handle, allocation_size: size },
                ),
                AllocationOutcome::Refused => image == Err::<Self, Error>(Error::Allocation),
            },
    {
        match outcome {
            AllocationOutcome::Created { handle, size } => Ok(
                Self { handle, allocation_size: size },
            ),
            AllocationOutcome::Refused => Err(Error::Allocation),
        }
    }

    /// Gives the image up: what is left is the command that destroys it
    /// and releases its allocation.
    pub fn destroy(self) -> (command: TeardownCommand)
        ensures
            command == (TeardownCommand::DestroyImage { image: self.handle }),
    {
        TeardownCommand::DestroyImage { image: self.handle }
    }

    /// The commands that bring the pixels of `description` into this image
    /// and leave every level as shader input. Generating more than one
    /// level needs a device that blits the format with linear filtering.
    pub fn upload_data(&self, linear_blit_supported: bool, description: &ImageDescription) -> (outcome:
        Result<Vec<ImageCommand>, Error>)
        requires
            description.spec_uploadable(),
        ensures
            !linear_blit_supported && description.mip_levels > 1 ==> outcome is Err
                && outcome->Err_0 == Error::UnsupportedFormat,
            linear_blit_supported || description.mip_levels == 1 ==> outcome is Ok
                && outcome->Ok_0@ == spec_upload_commands(*self, *description),
            outcome is Ok ==> spec_run(
                spec_fresh_levels(description.mip_levels as nat),
                outcome->Ok_0@,
            ) == Some(spec_readable_levels(description.mip_levels as nat)),
    {
        if !linear_blit_supported && description.mip_levels > 1 {
            return Err(Error::UnsupportedFormat);
        }
        let mut commands: Vec<ImageCommand> = Vec::new();
        commands.push(
            ImageCommand::StageUpload {
                buffer_size: self.allocation_size,
                byte_count: description.pixels.len(),
            },
        );
        commands.push(self.transition_base_to_transfer_dst(description.mip_levels));
        commands.push(self.copy_to_gpu_buffer(description));
        let mut generated = self.generate_mipmaps(description);
        commands.append(&mut generated);
        commands.push(self.transition_base_to_shader_read(description.mip_levels - 1));
        proof {
            assert(commands@ =~= spec_upload_commands(*self, *description));
            lemma_upload_leaves_image_readable(*self, *description);
        }
        Ok(commands)
    }

    /// Makes the first `level_count` levels copy targets, whatever they
    /// held.
    pub fn transition_base_to_transfer_dst(&self, level_count: u32) -> (command: ImageCommand)
        ensures
            command == spec_transition_command(
                self.handle,
                spec_base_to_transfer_dst(level_count),
            ),
    {
        let transition = finished(
            ImageLayoutTransitionBuilder::default().level_count(level_count).old_layout(
                ImageLayout::Undefined,
            ).new_layout(ImageLayout::TransferDstOptimal).src_access_mask(
                AccessFlags { bits: ACCESS_NONE },
            ).dst_access_mask(AccessFlags { bits: ACCESS_TRANSFER_WRITE }).src_stage_mask(
                PipelineStageFlags { bits: STAGE_TOP_OF_PIPE },
            ).dst_stage_mask(PipelineStageFlags { bits: STAGE_TRANSFER }).build(),
        );
        ImageCommand::PipelineBarrier(transition_image(self.handle, &transition))
    }

    /// Makes one level, a copy target, shader input.
    pub fn transition_base_to_shader_read(&self, base_mip_level: u32) -> (command: ImageCommand)
        ensures
            command == spec_transition_command(
                self.handle,
                spec_base_to_shader_read(base_mip_level),
            ),
    {
        let transition = finished(
            ImageLayoutTransitionBuilder::default().base_mip_level(base_mip_level).old_layout(
                ImageLayout::TransferDstOptimal,
            ).new_layout(ImageLayout::ShaderReadOnlyOptimal).src_access_mask(
                AccessFlags { bits: ACCESS_TRANSFER_WRITE },
            ).dst_access_mask(AccessFlags { bits: ACCESS_SHADER_READ }).src_stage_mask(
                PipelineStageFlags { bits: STAGE_TRANSFER },
            ).dst_stage_mask(PipelineStageFlags { bits: STAGE_FRAGMENT_SHADER }).build(),
        );
        ImageCommand::PipelineBarrier(transition_image(self.handle, &transition))
    }

    /// Makes one level, a copy target, a copy source.
    pub fn transition_mip_transfer_dst_to_src(&self, base_mip_level: u32) -> (command:
        ImageCommand)
        ensures
            command == spec_transition_command(
                self.handle,
                spec_mip_transfer_dst_to_src(base_mip_level),
            ),
    {
        let transition = finished(
            ImageLayoutTransitionBuilder::default().base_mip_level(base_mip_level).level_count(
                1,
            ).old_layout(ImageLayout::TransferDstOptimal).new_layout(
                ImageLayout::TransferSrcOptimal,
            ).src_access_mask(AccessFlags { bits: ACCESS_TRANSFER_WRITE }).dst_access_mask(
                AccessFlags { bits: ACCESS_TRANSFER_READ },
            ).src_stage_mask(PipelineStageFlags { bits: STAGE_TRANSFER }).dst_stage_mask(
                PipelineStageFlags { bits: STAGE_TRANSFER },
            ).build(),
        );
        ImageCommand::PipelineBarrier(transition_image(self.handle, &transition))
    }

    /// Makes one level, a copy source, shader input.
    pub fn transition_mip_to_shader_read(&self, base_mip_level: u32) -> (command: ImageCommand)
        ensures
            command == spec_transition_command(
                self.handle,
                spec_mip_to_shader_read(base_mip_level),
            ),
    {
        let transition = finished(
            ImageLayoutTransitionBuilder::default().base_mip_level(base_mip_level).old_layout(
                ImageLayout::TransferSrcOptimal,
            ).new_layout(ImageLayout::ShaderReadOnlyOptimal).src_access_mask(
                AccessFlags { bits: ACCESS_TRANSFER_READ },
            ).dst_access_mask(AccessFlags { bits: ACCESS_SHADER_READ }).src_stage_mask(
                PipelineStageFlags { bits: STAGE_TRANSFER },
            ).dst_stage_mask(PipelineStageFlags { bits: STAGE_FRAGMENT_SHADER }).build(),
        );
        ImageCommand::PipelineBarrier(transition_image(self.handle, &transition))
    }

    /// The copy of the whole picture from the staging buffer into the
    /// first level.
    pub fn copy_to_gpu_buffer(&self, description: &ImageDescription) -> (command: ImageCommand)
        ensures
            command == spec_copy_command(self.handle, description.width, description.height),
    {
        let extent = Extent3D { width: description.width, height: description.height, depth: 1 };
        let subresource = ImageSubresourceLayers {
            aspect: ImageAspect::Color,
            mip_level: 0,
            base_array_layer: 0,
            layer_count: 1,
        };
        let region = BufferImageCopy {
            buffer_offset: 0,
            buffer_row_length: 0,
            buffer_image_height: 0,
            image_subresource: subresource,
            image_offset: Offset3D { x: 0, y: 0, z: 0 },
            image_extent: extent,
        };
        ImageCommand::CopyBufferToImage(BufferToImageCopy { destination: self.handle, region })
    }

    /// The commands that fill every level after the first, each from the
    /// level before it at half the size, and leave every level but the
    /// last as shader input.
    pub fn generate_mipmaps(&self, description: &ImageDescription) -> (commands: Vec<
        ImageCommand,
    >)
        requires
            description.spec_blittable(),
        ensures
            commands@ == spec_mipmap_commands(
                self.handle,
                description.width as int,
                description.height as int,
                description.mip_levels as nat,
            ),
            description.width >= 1 && description.height >= 1 ==> forall|level: int|
                1 <= level < description.mip_levels ==> commands@[3 * (level - 1) + 1]
                    == #[trigger] spec_shifted_blit(
                    self.handle,
                    description.width as int,
                    description.height as int,
                    level,
                ),
    {
        let ghost base_width = description.width as int;
        let ghost base_height = description.height as int;
        let mut commands: Vec<ImageCommand> = Vec::new();
        let mut width: i32 = description.width as i32;
        let mut height: i32 = description.height as i32;
        let mut level: u32 = 1;
        assert(commands@ =~= spec_mipmap_commands(self.handle, base_width, base_height, 1));
        while level < description.mip_levels
            invariant
                1 <= level,
                level <= description.mip_levels || level == 1,
                width == spec_level_dimension(base_width, (level - 1) as nat),
                height == spec_level_dimension(base_height, (level - 1) as nat),
                commands@ == spec_mipmap_commands(
                    self.handle,
                    base_width,
                    base_height,
                    level as nat,
                ),
            decreases description.mip_levels - level,
        {
            let ghost base = 3 * (level - 1);
            assert(base / 3 == level - 1 && base % 3 == 0);
            assert((base + 1) / 3 == level - 1 && (base + 1) % 3 == 1);
            assert((base + 2) / 3 == level - 1 && (base + 2) % 3 == 2);
            commands.push(self.transition_mip_transfer_dst_to_src(level - 1));
            let dimensions = MipmapBlitDimensions::new(width, height);
            commands.push(self.blit_mipmap(&dimensions, level));
            commands.push(self.transition_mip_to_shader_read(level - 1));
            width = dimensions.next_width;
            height = dimensions.next_height;
            level = level + 1;
            assert(commands@ =~= spec_mipmap_commands(
                self.handle,
                base_width,
                base_height,
                level as nat,
            ));
        }
        assert(commands@ =~= spec_mipmap_commands(
            self.handle,
            base_width,
            base_height,
            description.mip_levels as nat,
        ));
        proof {
            if description.width >= 1 && description.height >= 1 {
                assert forall|level: int| 1 <= level < description.mip_levels implies commands@[3
                    * (level - 1) + 1] == #[trigger] spec_shifted_blit(
                    self.handle,
                    base_width,
                    base_height,
                    level,
                ) by {
                    let index = 3 * (level - 1) + 1;
                    assert(index / 3 == level - 1 && index % 3 == 1);
                    lemma_level_blit_is_shift(base_width, base_height, (level - 1) as nat);
                }
            }
        }
        commands
    }

    /// The linear blit of level `level - 1`, of the extent that
    /// `dimensions` gives it, into level `level`.
    pub fn blit_mipmap(&self, dimensions: &MipmapBlitDimensions, level: u32) -> (command:
        ImageCommand)
        requires
            level >= 1,
        ensures
            command == spec_blit_command(self.handle, *dimensions, level),
    {
        let src_subresource = ImageSubresourceLayers {
            aspect: ImageAspect::Color,
            mip_level: level - 1,
            base_array_layer: 0,
            layer_count: 1,
        };
        let dst_subresource = ImageSubresourceLayers {
            aspect: ImageAspect::Color,
            mip_level: level,
            base_array_layer: 0,
            layer_count: 1,
        };
        let region = ImageBlit {
            src_offsets: dimensions.src_offsets(),
            src_subresource,
            dst_offsets: dimensions.dst_offsets(),
            dst_subresource,
        };
        let command = ImageCommand::BlitImage(
            BlitImage {
                src_image: self.handle,
                src_image_layout: ImageLayout::TransferSrcOptimal,
                dst_image: self.handle,
                dst_image_layout: ImageLayout::TransferDstOptimal,
                region,
                filter: Filter::Linear,
            },
        );
        assert(command == spec_blit_command(self.handle, *dimensions, level)) by {
            let wanted = spec_blit_command(self.handle, *dimensions, level)->BlitImage_0;
            assert(region.src_offsets =~= wanted.region.src_offsets);
            assert(region.dst_offsets =~= wanted.region.dst_offsets);
        }
        command
    }
}

/// The opaque handle of a GPU image view.
#[derive(Debug, Clone, Copy, PartialEq, Eq, Structural)]
pub struct ImageViewHandle {
    pub raw: u64,
}

/// A view that the device created on an image. It must not outlive the
/// image.
#[derive(Debug, PartialEq, Eq)]
pub struct ImageView {
    pub handle: ImageViewHandle,
}

/// How a view presents the layers of its image.
#[derive(Debug, Clone, Copy, PartialEq, Eq, Structural)]
pub enum ImageViewType {
    Type2D,
    Cube,
}

/// What it takes to create an image view. The components map to
/// themselves.
#[derive(Debug, Clone, Copy, PartialEq, Eq, Structural)]
pub struct ImageViewCreateInfo {
    pub image: ImageHandle,
    pub view_type: ImageViewType,
    pub format: Format,
    pub subresource_range: ImageSubresourceRange,
}

/// The view over every level and the first `layers` layers of the colour
/// aspect of `image`.
pub open spec fn spec_image_view(
    image: ImageHandle,
    description: ImageDescription,
    view_type: ImageViewType,
    layers: u32,
) -> ImageViewCreateInfo {
    ImageViewCreateInfo {
        image,
        view_type,
        format: description.format,
        subresource_range: ImageSubresourceRange {
            aspect: ImageAspect::Color,
            base_mip_level: 0,
            level_count: description.mip_levels,
            base_array_layer: 0,
            layer_count: layers,
        },
    }
}

/// A sampled two-dimensional image and the view on it.
#[derive(Debug, PartialEq, Eq)]
pub struct Texture {
    pub image: AllocatedImage,
    pub view: ImageView,
}

impl Texture {
    pub fn new(image: AllocatedImage, view: ImageView) -> (texture: Self)
        ensures
            texture.image == image,
            texture.view == view,
    {
        Self { image, view }
    }

    /// Gives the texture up: the view goes first, then the image that it
    /// looks at.
    pub fn destroy(self) -> (commands: Vec<TeardownCommand>)
        ensures
            commands@ == seq![
                TeardownCommand::DestroyImageView { view: self.view.handle },
                TeardownCommand::DestroyImage { image: self.image.handle },
            ],
    {
        let mut commands: Vec<TeardownCommand> = Vec::new();
        commands.push(TeardownCommand::DestroyImageView { view: self.view.handle });
        commands.push(self.image.destroy());
        assert(commands@ =~= seq![
            TeardownCommand::DestroyImageView { view: self.view.handle },
            TeardownCommand::DestroyImage { image: self.image.handle },
        ]);
        commands
    }

    /// The commands that fill the image of a texture: always a whole
    /// upload.
    pub fn upload_commands(
        image: &AllocatedImage,
        linear_blit_supported: bool,
        description: &ImageDescription,
    ) -> (outcome: Result<Vec<ImageCommand>, Error>)
        requires
            description.spec_uploadable(),
        ensures
            !linear_blit_supported && description.mip_levels > 1 ==> outcome is Err
                && outcome->Err_0 == Error::UnsupportedFormat,
            linear_blit_supported || description.mip_levels == 1 ==> outcome is Ok
                && outcome->Ok_0@ == spec_upload_commands(*image, *description),
    {
        image.upload_data(linear_blit_supported, description)
    }

    /// The view that a texture needs on its image.
    pub fn image_view(image: &AllocatedImage, description: &ImageDescription) -> (info:
        ImageViewCreateInfo)
        ensures
            info == spec_image_view(image.handle, *description, ImageViewType::Type2D, 1),
    {
        ImageViewCreateInfo {
            image: image.handle,
            view_type: ImageViewType::Type2D,
            format: description.format,
            subresource_range: ImageSubresourceRange {
                aspect: ImageAspect::Color,
                base_mip_level: 0,
                level_count: description.mip_levels,
                base_array_layer: 0,
                layer_count: 1,
            },
        }
    }
}

/// A cube map of six layers and the view on it.
#[derive(Debug, PartialEq, Eq)]
pub struct Cubemap {
    pub image: AllocatedImage,
    pub view: ImageView,
}

impl Cubemap {
    pub fn new(image: AllocatedImage, view: ImageView) -> (cubemap: Self)
        ensures
            cubemap.image == image,
            cubemap.view == view,
    {
        Self { image, view }
    }

    /// Gives the cube map up: the view goes first, then the image that
    /// it looks at.
    pub fn destroy(self) -> (commands: Vec<TeardownCommand>)
        ensures
            commands@ == seq![
                TeardownCommand::DestroyImageView { view: self.view.handle },
                TeardownCommand::DestroyImage { image: self.image.handle },
            ],
    {
        let mut commands: Vec<TeardownCommand> = Vec::new();
        commands.push(TeardownCommand::DestroyImageView { view: self.view.handle });
        commands.push(self.image.destroy());
        assert(commands@ =~= seq![
            TeardownCommand::DestroyImageView { view: self.view.handle },
            TeardownCommand::DestroyImage { image: self.image.handle },
        ]);
        commands
    }

    /// The commands that fill the image of a cube map: none for a
    /// description without pixels, a whole upload otherwise.
    pub fn upload_commands(
        image: &AllocatedImage,
        linear_blit_supported: bool,
        description: &ImageDescription,
    ) -> (outcome: Result<Vec<ImageCommand>, Error>)
        requires
            description.pixels@.len() > 0 ==> description.spec_uploadable(),
        ensures
            description.pixels@.len() == 0 ==> outcome is Ok && outcome->Ok_0@
                == Seq::<ImageCommand>::empty(),
            description.pixels@.len() > 0 && !linear_blit_supported && description.mip_levels > 1
                ==> outcome is Err && outcome->Err_0 == Error::UnsupportedFormat,
            description.pixels@.len() > 0 && (linear_blit_supported || description.mip_levels
                == 1) ==> outcome is Ok && outcome->Ok_0@ == spec_upload_commands(
                *image,
                *description,
            ),
    {
        if description.pixels.len() == 0 {
            return Ok(Vec::new());
        }
        image.upload_data(linear_blit_supported, description)
    }

    /// The view that a cube map needs on its image.
    pub fn image_view(image: &AllocatedImage, description: &ImageDescription) -> (info:
        ImageViewCreateInfo)
        ensures
            info == spec_image_view(image.handle, *description, ImageViewType::Cube, 6),
    {
        ImageViewCreateInfo {
            image: image.handle,
            view_type: ImageViewType::Cube,
            format: description.format,
            subresource_range: ImageSubresourceRange {
                aspect: ImageAspect::Color,
                base_mip_level: 0,
                level_count: description.mip_levels,
                base_array_layer: 0,
                layer_count: 6,
            },
        }
    }
}

} // verus!
