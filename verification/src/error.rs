use vstd::prelude::*;

verus! {

/// Everything that can go wrong inside the renderer core.
#[derive(Debug, Clone, Copy, PartialEq, Eq, Structural)]
pub enum Error {
    /// The GPU memory allocator could not satisfy a request.
    Allocation,
    /// The device cannot blit the format with linear filtering.
    UnsupportedFormat,
    /// A render graph declaration refers to something undeclared, or
    /// declares a pass without attachments.
    GraphValidation,
    /// No pass of that name was declared.
    UnknownPass,
    /// No image node of that name was declared.
    UnknownNode,
    /// The presentation surface no longer matches the window.
    SurfaceOutOfDate,
    /// A presentation image index beyond the images that were supplied.
    ImageIndexOutOfBounds,
    /// Pixel bytes too short for the stated extent, or a pixel layout
    /// without a GPU format.
    InvalidPixelData,
    /// A builder was finished before a mandatory field was set.
    UninitializedField,
    /// A command found an image level in a layout other than the one it
    /// needs.
    LayoutMismatch,
    /// A renderer was asked to draw before its pipelines were created.
    MissingPipeline,
    /// A geometry buffer without the index buffer that drawing needs.
    MissingIndexBuffer,
    /// Any other failure of the graphics API. It ends the frame loop.
    Device,
    /// The frame engine was told of something that cannot happen in the
    /// phase it is in.
    UnexpectedEvent,
}

} // verus!
