use vstd::prelude::*;
use crate::error::Error;
use crate::types::{Extent3D, ImageHandle, ImageLayout, Offset3D};
use crate::transition::{ImageAspect, PipelineBarrier};

verus! {

/// One mip level, and a range of array layers, of an image.
#[derive(Debug, Clone, Copy, PartialEq, Eq, Structural)]
pub struct ImageSubresourceLayers {
    pub aspect: ImageAspect,
    pub mip_level: u32,
    pub base_array_layer: u32,
    pub layer_count: u32,
}

/// Where in a buffer the pixels of an image region lie.
#[derive(Debug, Clone, Copy, PartialEq, Eq, Structural)]
pub struct BufferImageCopy {
    pub buffer_offset: u64,
    pub buffer_row_length: u32,
    pub buffer_image_height: u32,
    pub image_subresource: ImageSubresourceLayers,
    pub image_offset: Offset3D,
    pub image_extent: Extent3D,
}

/// A copy from the staging buffer into an image.
#[derive(Debug, Clone, Copy, PartialEq, Eq, Structural)]
pub struct BufferToImageCopy {
    pub destination: ImageHandle,
    pub region: BufferImageCopy,
}

/// How a blit samples its source.
#[derive(Debug, Clone, Copy, PartialEq, Eq, Structural)]
pub enum Filter {
    Nearest,
    Linear,
}

/// The source and destination regions of a blit.
#[derive(Debug, Clone, Copy, PartialEq, Eq)]
pub struct ImageBlit {
    pub src_offsets: [Offset3D; 2],
    pub src_subresource: ImageSubresourceLayers,
    pub dst_offsets: [Offset3D; 2],
    pub dst_subresource: ImageSubresourceLayers,
}

/// A scaled copy between two image regions.
#[derive(Debug, Clone, Copy, PartialEq, Eq)]
pub struct BlitImage {
    pub src_image: ImageHandle,
    pub src_image_layout: ImageLayout,
    pub dst_image: ImageHandle,
    pub dst_image_layout: ImageLayout,
    pub region: ImageBlit,
    pub filter: Filter,
}

/// One step of bringing an image onto the GPU. The caller records each
/// into a one-shot command buffer and waits for it before the next.
#[derive(Debug, Clone, Copy, PartialEq, Eq)]
pub enum ImageCommand {
    /// Create a staging buffer of `buffer_size` bytes and write the first
    /// `byte_count` bytes of the pixels at its start.
    StageUpload { buffer_size: u64, byte_count: usize },
    PipelineBarrier(PipelineBarrier),
    CopyBufferToImage(BufferToImageCopy),
    BlitImage(BlitImage),
}

/// Whether all of the `count` levels from `base` on are in `layout`.
pub open spec fn spec_levels_are(
    levels: Seq<ImageLayout>,
    base: int,
    count: int,
    layout: ImageLayout,
) -> bool {
    forall|level: int| base <= level < base + count ==> #[trigger] levels[level] == layout
}

/// What one command does to the layouts of an image's mip levels, or
/// `None` where it finds a level in a layout that it cannot work on.
///
/// A barrier needs its whole range inside the image and in the layout it
/// names as old (`Undefined` fits every layout: the contents are given
/// up), and leaves that range in the new layout. A copy needs its level in
/// `TransferDstOptimal`, a blit its two levels in the layouts it names.
/// Neither changes a layout, nor does staging.
pub open spec fn spec_step(levels: Seq<ImageLayout>, command: ImageCommand) -> Option<
    Seq<ImageLayout>,
> {
    match command {
        ImageCommand::StageUpload { .. } => Some(levels),
        ImageCommand::PipelineBarrier(barrier) => {
            let inner = barrier.image_memory_barrier;
            let base = inner.subresource_range.base_mip_level as int;
            let count = inner.subresource_range.level_count as int;
            if base + count <= levels.len() && (inner.old_layout == ImageLayout::Undefined
                || spec_levels_are(levels, base, count, inner.old_layout)) {
                Some(
                    Seq::new(
                        levels.len(),
                        |level: int|
                            if base <= level < base + count {
                                inner.new_layout
                            } else {
                                levels[level]
                            },
                    ),
                )
            } else {
                None
            }
        },
        ImageCommand::CopyBufferToImage(copy) => {
            let level = copy.region.image_subresource.mip_level as int;
            if level < levels.len() && levels[level] == ImageLayout::TransferDstOptimal {
                Some(levels)
            } else {
                None
            }
        },
        ImageCommand::BlitImage(blit) => {
            let from = blit.region.src_subresource.mip_level as int;
            let to = blit.region.dst_subresource.mip_level as int;
            if from < levels.len() && to < levels.len() && levels[from] == blit.src_image_layout
                && levels[to] == blit.dst_image_layout {
                Some(levels)
            } else {
                None
            }
        },
    }
}

/// What a sequence of commands does, one after the other; `None` as soon
/// as one of them cannot work.
pub open spec fn spec_run(levels: Seq<ImageLayout>, commands: Seq<ImageCommand>) -> Option<
    Seq<ImageLayout>,
>
    decreases commands.len(),
{
    if commands.len() == 0 {
        Some(levels)
    } else {
        match spec_run(levels, commands.drop_last()) {
            Some(before) => spec_step(before, commands.last()),
            None => None,
        }
    }
}

/// Running one more command is a step from where the others ended.
pub proof fn lemma_run_push(
    levels: Seq<ImageLayout>,
    commands: Seq<ImageCommand>,
    command: ImageCommand,
)
    ensures
        spec_run(levels, commands.push(command)) == match spec_run(levels, commands) {
            Some(before) => spec_step(before, command),
            None => None,
        },
{
    assert(commands.push(command).drop_last() =~= commands);
}

/// Whether the first `count` commands run from `levels` to `reached`,
/// and the next one cannot work there.
pub open spec fn spec_stuck_at(
    levels: Seq<ImageLayout>,
    commands: Seq<ImageCommand>,
    reached: Seq<ImageLayout>,
    count: int,
) -> bool {
    &&& 0 <= count < commands.len()
    &&& spec_run(levels, commands.subrange(0, count)) == Some(reached)
    &&& spec_step(reached, commands[count]) is None
}

/// Whether `reached` is where the commands get from `levels` before the
/// first of them that cannot work.
pub open spec fn spec_stuck_after(
    levels: Seq<ImageLayout>,
    commands: Seq<ImageCommand>,
    reached: Seq<ImageLayout>,
) -> bool {
    exists|count: int| #[trigger] spec_stuck_at(levels, commands, reached, count)
}

/// The layout of every mip level of one image. Commands are the only way
/// to change it.
pub struct ImageLayoutState {
    levels: Vec<ImageLayout>,
}

impl View for ImageLayoutState {
    type V = Seq<ImageLayout>;

    closed spec fn view(&self) -> Seq<ImageLayout> {
        self.levels@
    }
}

impl ImageLayoutState {
    /// A new image: every level `Undefined`.
    pub fn new(mip_levels: u32) -> (state: Self)
        ensures
            state@ == Seq::new(mip_levels as nat, |level: int| ImageLayout::Undefined),
    {
        let mut levels: Vec<ImageLayout> = Vec::new();
        let mut level: u32 = 0;
        while level < mip_levels
            invariant
                level <= mip_levels,
                levels@ == Seq::new(level as nat, |level: int| ImageLayout::Undefined),
            decreases mip_levels - level,
        {
            levels.push(ImageLayout::Undefined);
            level = level + 1;
            assert(levels@ =~= Seq::new(level as nat, |level: int| ImageLayout::Undefined));
        }
        ImageLayoutState { levels }
    }

    pub fn level_count(&self) -> (count: usize)
        ensures
            count == self@.len(),
    {
        self.levels.len()
    }

    /// The layout of one level, or `None` beyond the last.
    pub fn layout(&self, level: u32) -> (layout: Option<ImageLayout>)
        ensures
            layout == if level < self@.len() {
                Some(self@[level as int])
            } else {
                None
            },
    {
        if (level as usize) < self.levels.len() {
            Some(self.levels[level as usize])
        } else {
            None
        }
    }

    fn levels_are(&self, base: usize, count: usize, layout: ImageLayout) -> (all: bool)
        requires
            base + count <= self@.len(),
        ensures
            all == spec_levels_are(self@, base as int, count as int, layout),
    {
        let len: usize = self.levels.len();
        let mut offset: usize = 0;
        while offset < count
            invariant
                offset <= count,
                base + count <= len,
                len == self.levels@.len(),
                spec_levels_are(self.levels@, base as int, offset as int, layout),
            decreases count - offset,
        {
            if self.levels[base + offset] != layout {
                return false;
            }
            offset = offset + 1;
        }
        true
    }

    /// Applies one command. A command that cannot work here leaves the
    /// layouts as they are and is reported as a mismatch.
    pub fn apply(&mut self, command: &ImageCommand) -> (outcome: Result<(), Error>)
        ensures
            match spec_step(old(self)@, *command) {
                Some(after) => outcome == Ok::<(), Error>(()) && final(self)@ == after,
                None => outcome == Err::<(), Error>(Error::LayoutMismatch) && final(self)@ == old(
                    self,
                )@,
            },
    {
        match command {
            ImageCommand::StageUpload { .. } => Ok(()),
            ImageCommand::PipelineBarrier(barrier) => {
                let inner = barrier.image_memory_barrier;
                let base: u64 = inner.subresource_range.base_mip_level as u64;
                let count: u64 = inner.subresource_range.level_count as u64;
                let len: usize = self.levels.len();
                if base + count > len as u64 {
                    return Err(Error::LayoutMismatch);
                }
                let first: usize = base as usize;
                let span: usize = count as usize;
                if inner.old_layout != ImageLayout::Undefined && !self.levels_are(
                    first,
                    span,
                    inner.old_layout,
                ) {
                    return Err(Error::LayoutMismatch);
                }
                let ghost before = self.levels@;
                let mut offset: usize = 0;
                while offset < span
                    invariant
                        offset <= span,
                        first + span <= len,
                        self.levels@.len() == len,
                        before.len() == len,
                        forall|level: int|
                            0 <= level < len ==> #[trigger] self.levels@[level] == if first
                                <= level < first + offset {
                                inner.new_layout
                            } else {
                                before[level]
                            },
                    decreases span - offset,
                {
                    self.levels.set(first + offset, inner.new_layout);
                    offset = offset + 1;
                }
                assert(self.levels@ =~= spec_step(before, *command)->0);
                Ok(())
            },
            ImageCommand::CopyBufferToImage(copy) => {
                let level: u32 = copy.region.image_subresource.mip_level;
                if (level as usize) < self.levels.len() && self.levels[level as usize]
                    == ImageLayout::TransferDstOptimal {
                    Ok(())
                } else {
                    Err(Error::LayoutMismatch)
                }
            },
            ImageCommand::BlitImage(blit) => {
                let from: u32 = blit.region.src_subresource.mip_level;
                let to: u32 = blit.region.dst_subresource.mip_level;
                let len: usize = self.levels.len();
                if (from as usize) < len && (to as usize) < len && self.levels[from as usize]
                    == blit.src_image_layout && self.levels[to as usize]
                    == blit.dst_image_layout {
                    Ok(())
                } else {
                    Err(Error::LayoutMismatch)
                }
            },
        }
    }

    /// Applies commands in order and stops at the first that cannot work;
    /// the layouts then stay as the commands before it left them.
    pub fn apply_all(&mut self, commands: &Vec<ImageCommand>) -> (outcome: Result<(), Error>)
        ensures
            match spec_run(old(self)@, commands@) {
                Some(after) => outcome == Ok::<(), Error>(()) && final(self)@ == after,
                None => outcome == Err::<(), Error>(Error::LayoutMismatch) && spec_stuck_after(
                    old(self)@,
                    commands@,
                    final(self)@,
                ),
            },
    {
        let ghost start = self@;
        let mut index: usize = 0;
        while index < commands.len()
            invariant
                index <= commands@.len(),
                start == old(self)@,
                spec_run(start, commands@.subrange(0, index as int)) == Some(self@),
            decreases commands@.len() - index,
        {
            let outcome = self.apply(&commands[index]);
            proof {
                lemma_run_push(start, commands@.subrange(0, index as int), commands@[index as int]);
                assert(commands@.subrange(0, index as int).push(commands@[index as int])
                    =~= commands@.subrange(0, index + 1));
            }
            if outcome.is_err() {
                proof {
                    lemma_run_stuck(start, commands@, index + 1);
                    assert(spec_stuck_at(start, commands@, self@, index as int));
                }
                return Err(Error::LayoutMismatch);
            }
            index = index + 1;
        }
        assert(commands@.subrange(0, index as int) =~= commands@);
        Ok(())
    }
}

/// Once a prefix of the commands cannot run, neither can the whole.
pub proof fn lemma_run_stuck(levels: Seq<ImageLayout>, commands: Seq<ImageCommand>, prefix: int)
    requires
        0 <= prefix <= commands.len(),
        spec_run(levels, commands.subrange(0, prefix)) is None,
    ensures
        spec_run(levels, commands) is None,
    decreases commands.len() - prefix,
{
    if prefix < commands.len() {
        lemma_run_push(levels, commands.subrange(0, prefix), commands[prefix]);
        assert(commands.subrange(0, prefix).push(commands[prefix]) =~= commands.subrange(
            0,
            prefix + 1,
        ));
        lemma_run_stuck(levels, commands, prefix + 1);
    } else {
        assert(commands.subrange(0, prefix) =~= commands);
    }
}

} // verus!
