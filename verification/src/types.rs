use vstd::prelude::*;

verus! {

/// Pixel formats the renderer knows how to handle.
#[derive(Debug, Clone, Copy, PartialEq, Eq, Structural)]
pub enum Format {
    Undefined,
    R8G8B8Unorm,
    B8G8R8Unorm,
    R8G8B8A8Unorm,
    B8G8R8A8Unorm,
    B8G8R8A8Srgb,
    R16G16B16Unorm,
    R16G16B16A16Unorm,
    R32G32B32Sfloat,
    R32G32B32A32Sfloat,
    D32Sfloat,
    D24UnormS8Uint,
}

impl Format {
    /// Number of colour channels per pixel; a depth format has none, and
    /// neither has `Undefined`.
    pub open spec fn spec_channel_count(self) -> nat {
        match self {
            Format::R8G8B8Unorm | Format::B8G8R8Unorm | Format::R16G16B16Unorm
            | Format::R32G32B32Sfloat => 3,
            Format::R8G8B8A8Unorm | Format::B8G8R8A8Unorm | Format::B8G8R8A8Srgb
            | Format::R16G16B16A16Unorm | Format::R32G32B32A32Sfloat => 4,
            Format::Undefined | Format::D32Sfloat | Format::D24UnormS8Uint => 0,
        }
    }

    /// The depth formats.
    pub open spec fn spec_is_depth(self) -> bool {
        self == Format::D32Sfloat || self == Format::D24UnormS8Uint
    }

    /// The formats of three bytes per pixel, which no device samples.
    pub open spec fn spec_is_24bit(self) -> bool {
        self == Format::R8G8B8Unorm || self == Format::B8G8R8Unorm
    }

    /// The format of three samples of two bytes per pixel, which no
    /// device samples either.
    pub open spec fn spec_is_48bit(self) -> bool {
        self == Format::R16G16B16Unorm
    }

    /// The formats that a picture cannot be uploaded in before every
    /// pixel has an alpha sample: three channels of one or two bytes.
    pub open spec fn spec_needs_alpha(self) -> bool {
        self.spec_is_24bit() || self.spec_is_48bit()
    }

    /// The format that a format in need of alpha becomes once every pixel
    /// has an alpha sample: the same channels in the same order, and
    /// alpha after them. Every other format stays what it is.
    pub open spec fn spec_with_alpha(self) -> Format {
        match self {
            Format::R8G8B8Unorm => Format::R8G8B8A8Unorm,
            Format::B8G8R8Unorm => Format::B8G8R8A8Unorm,
            Format::R16G16B16Unorm => Format::R16G16B16A16Unorm,
            other => other,
        }
    }

    /// Number of bytes that a pixel takes; none for `Undefined`.
    pub open spec fn spec_bytes_per_pixel(self) -> nat {
        match self {
            Format::Undefined => 0,
            Format::R8G8B8Unorm | Format::B8G8R8Unorm => 3,
            Format::R8G8B8A8Unorm | Format::B8G8R8A8Unorm | Format::B8G8R8A8Srgb
            | Format::D32Sfloat | Format::D24UnormS8Uint => 4,
            Format::R16G16B16Unorm => 6,
            Format::R16G16B16A16Unorm => 8,
            Format::R32G32B32Sfloat => 12,
            Format::R32G32B32A32Sfloat => 16,
        }
    }

    pub fn channel_count(self) -> (count: u32)
        ensures
            count == self.spec_channel_count(),
    {
        match self {
            Format::R8G8B8Unorm | Format::B8G8R8Unorm | Format::R16G16B16Unorm
            | Format::R32G32B32Sfloat => 3,
            Format::R8G8B8A8Unorm | Format::B8G8R8A8Unorm | Format::B8G8R8A8Srgb
            | Format::R16G16B16A16Unorm | Format::R32G32B32A32Sfloat => 4,
            Format::Undefined | Format::D32Sfloat | Format::D24UnormS8Uint => 0,
        }
    }

    pub fn is_depth(self) -> (depth: bool)
        ensures
            depth == self.spec_is_depth(),
    {
        match self {
            Format::D32Sfloat | Format::D24UnormS8Uint => true,
            _ => false,
        }
    }

    pub fn is_24bit(self) -> (narrow: bool)
        ensures
            narrow == self.spec_is_24bit(),
    {
        match self {
            Format::R8G8B8Unorm | Format::B8G8R8Unorm => true,
            _ => false,
        }
    }

    pub fn is_48bit(self) -> (narrow: bool)
        ensures
            narrow == self.spec_is_48bit(),
    {
        match self {
            Format::R16G16B16Unorm => true,
            _ => false,
        }
    }

    pub fn with_alpha(self) -> (wide: Format)
        ensures
            wide == self.spec_with_alpha(),
    {
        match self {
            Format::R8G8B8Unorm => Format::R8G8B8A8Unorm,
            Format::B8G8R8Unorm => Format::B8G8R8A8Unorm,
            Format::R16G16B16Unorm => Format::R16G16B16A16Unorm,
            other => other,
        }
    }

    pub fn bytes_per_pixel(self) -> (bytes: u32)
        ensures
            bytes == self.spec_bytes_per_pixel(),
    {
        match self {
            Format::Undefined => 0,
            Format::R8G8B8Unorm | Format::B8G8R8Unorm => 3,
            Format::R8G8B8A8Unorm | Format::B8G8R8A8Unorm | Format::B8G8R8A8Srgb
            | Format::D32Sfloat | Format::D24UnormS8Uint => 4,
            Format::R16G16B16Unorm => 6,
            Format::R16G16B16A16Unorm => 8,
            Format::R32G32B32Sfloat => 12,
            Format::R32G32B32A32Sfloat => 16,
        }
    }
}

/// The law of alpha synthesis on formats: a format in need of alpha
/// gains exactly one channel, and a third of its bytes with it, and needs
/// alpha no more; widening twice changes nothing.
pub proof fn lemma_with_alpha_is_four_channel(format: Format)
    ensures
        format.spec_needs_alpha() ==> format.spec_channel_count() == 3
            && format.spec_with_alpha().spec_channel_count() == 4 && 3
            * format.spec_with_alpha().spec_bytes_per_pixel() == 4 * format.spec_bytes_per_pixel(),
        !format.spec_with_alpha().spec_needs_alpha(),
        format.spec_with_alpha().spec_with_alpha() == format.spec_with_alpha(),
        !format.spec_needs_alpha() ==> format.spec_with_alpha() == format,
{
}

/// Memory layouts an image level can be in.
#[derive(Debug, Clone, Copy, PartialEq, Eq, Structural)]
pub enum ImageLayout {
    Undefined,
    General,
    ColorAttachmentOptimal,
    DepthStencilAttachmentOptimal,
    ShaderReadOnlyOptimal,
    TransferSrcOptimal,
    TransferDstOptimal,
    PresentSrc,
}

/// A set of memory access kinds, one bit each.
#[derive(Debug, Clone, Copy, PartialEq, Eq, Structural)]
pub struct AccessFlags {
    pub bits: u32,
}

pub const ACCESS_NONE: u32 = 0x0;

pub const ACCESS_SHADER_READ: u32 = 0x20;

pub const ACCESS_COLOR_ATTACHMENT_WRITE: u32 = 0x100;

pub const ACCESS_TRANSFER_READ: u32 = 0x800;

pub const ACCESS_TRANSFER_WRITE: u32 = 0x1000;

/// A set of pipeline stages, one bit each.
#[derive(Debug, Clone, Copy, PartialEq, Eq, Structural)]
pub struct PipelineStageFlags {
    pub bits: u32,
}

pub const STAGE_TOP_OF_PIPE: u32 = 0x1;

pub const STAGE_FRAGMENT_SHADER: u32 = 0x80;

pub const STAGE_COLOR_ATTACHMENT_OUTPUT: u32 = 0x400;

pub const STAGE_TRANSFER: u32 = 0x1000;

/// A set of image usages, one bit each.
#[derive(Debug, Clone, Copy, PartialEq, Eq, Structural)]
pub struct ImageUsageFlags {
    pub bits: u32,
}

pub const USAGE_TRANSFER_SRC: u32 = 0x1;

pub const USAGE_TRANSFER_DST: u32 = 0x2;

pub const USAGE_SAMPLED: u32 = 0x4;

pub const USAGE_COLOR_ATTACHMENT: u32 = 0x10;

pub const USAGE_DEPTH_STENCIL_ATTACHMENT: u32 = 0x20;

/// The queue family index that leaves ownership where it is.
pub const QUEUE_FAMILY_IGNORED: u32 = 0xffff_ffff;

/// Samples per pixel of a multisampled image.
#[derive(Debug, Clone, Copy, PartialEq, Eq, Structural)]
pub enum SampleCount {
    Type1,
    Type2,
    Type4,
    Type8,
}

/// Width and height in pixels.
#[derive(Debug, Clone, Copy, PartialEq, Eq, Structural)]
pub struct Extent2D {
    pub width: u32,
    pub height: u32,
}

/// Width, height and depth in pixels.
#[derive(Debug, Clone, Copy, PartialEq, Eq, Structural)]
pub struct Extent3D {
    pub width: u32,
    pub height: u32,
    pub depth: u32,
}

/// A signed position inside an image.
#[derive(Debug, Clone, Copy, PartialEq, Eq, Structural)]
pub struct Offset3D {
    pub x: i32,
    pub y: i32,
    pub z: i32,
}

/// The opaque handle of a GPU image.
#[derive(Debug, Clone, Copy, PartialEq, Eq, Structural)]
pub struct ImageHandle {
    pub raw: u64,
}

/// The opaque handle of a GPU buffer.
#[derive(Debug, Clone, Copy, PartialEq, Eq, Structural)]
pub struct BufferHandle {
    pub raw: u64,
}

} // verus!
