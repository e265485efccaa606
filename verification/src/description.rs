use vstd::prelude::*;
use vstd::arithmetic::power2::pow2;
use crate::error::Error;
use crate::mip::{calculate_mip_levels, spec_mip_levels};
use crate::types::{
    Extent3D, Format, ImageLayout, ImageUsageFlags, SampleCount, USAGE_SAMPLED,
    USAGE_TRANSFER_DST, USAGE_TRANSFER_SRC,
};

verus! {

/// How a decoded picture lays out the channels of a pixel.
#[derive(Debug, Clone, Copy, PartialEq, Eq, Structural)]
pub enum PixelLayout {
    Luma8,
    LumaA8,
    Rgb8,
    Rgba8,
    Bgr8,
    Bgra8,
    Luma16,
    LumaA16,
    Rgb16,
    Rgba16,
}

/// A picture as a decoder hands it over: its layout, its extent, and its
/// bytes row by row.
#[derive(Debug, Clone, PartialEq, Eq)]
pub struct DecodedImage {
    pub layout: PixelLayout,
    pub width: u32,
    pub height: u32,
    pub bytes: Vec<u8>,
}

/// Number of bytes that a pixel of a layout takes.
pub open spec fn spec_layout_bytes(layout: PixelLayout) -> nat {
    match layout {
        PixelLayout::Luma8 => 1,
        PixelLayout::LumaA8 | PixelLayout::Luma16 => 2,
        PixelLayout::Rgb8 | PixelLayout::Bgr8 => 3,
        PixelLayout::Rgba8 | PixelLayout::Bgra8 | PixelLayout::LumaA16 => 4,
        PixelLayout::Rgb16 => 6,
        PixelLayout::Rgba16 => 8,
    }
}

fn layout_bytes(layout: PixelLayout) -> (bytes: u8)
    ensures
        bytes == spec_layout_bytes(layout),
{
    match layout {
        PixelLayout::Luma8 => 1,
        PixelLayout::LumaA8 | PixelLayout::Luma16 => 2,
        PixelLayout::Rgb8 | PixelLayout::Bgr8 => 3,
        PixelLayout::Rgba8 | PixelLayout::Bgra8 | PixelLayout::LumaA16 => 4,
        PixelLayout::Rgb16 => 6,
        PixelLayout::Rgba16 => 8,
    }
}

impl DecodedImage {
    /// A decoded picture has exactly the bytes of its pixels: as many as
    /// its layout takes for a pixel, for every pixel of its extent.
    pub open spec fn spec_well_formed(self) -> bool {
        self.bytes@.len() == spec_layout_bytes(self.layout) * self.width * self.height
    }

    /// Whether the picture has exactly the bytes of its pixels.
    pub fn is_well_formed(&self) -> (well_formed: bool)
        ensures
            well_formed == self.spec_well_formed(),
    {
        let each: u128 = layout_bytes(self.layout) as u128;
        let width: u128 = self.width as u128;
        let height: u128 = self.height as u128;
        assert(each * width <= 8 * 0xffff_ffff && each * width * height <= 8 * 0xffff_ffff
            * 0xffff_ffff) by (nonlinear_arith)
            requires
                0 <= each <= 8,
                0 <= width <= 0xffff_ffff,
                0 <= height <= 0xffff_ffff,
        ;
        let wanted: u128 = each * width * height;
        let len: usize = self.bytes.len();
        wanted == len as u128
    }
}

/// The GPU format for a pixel layout; the grey layouts have none.
pub open spec fn spec_format_of(layout: PixelLayout) -> Option<Format> {
    match layout {
        PixelLayout::Rgb8 => Some(Format::R8G8B8Unorm),
        PixelLayout::Rgba8 => Some(Format::R8G8B8A8Unorm),
        PixelLayout::Bgr8 => Some(Format::B8G8R8Unorm),
        PixelLayout::Bgra8 => Some(Format::B8G8R8A8Unorm),
        PixelLayout::Rgb16 => Some(Format::R16G16B16Unorm),
        PixelLayout::Rgba16 => Some(Format::R16G16B16A16Unorm),
        _ => None,
    }
}

/// The GPU format for a pixel layout, if there is one.
pub fn format_of(layout: PixelLayout) -> (format: Option<Format>)
    ensures
        format == spec_format_of(layout),
{
    match layout {
        PixelLayout::Rgb8 => Some(Format::R8G8B8Unorm),
        PixelLayout::Rgba8 => Some(Format::R8G8B8A8Unorm),
        PixelLayout::Bgr8 => Some(Format::B8G8R8Unorm),
        PixelLayout::Bgra8 => Some(Format::B8G8R8A8Unorm),
        PixelLayout::Rgb16 => Some(Format::R16G16B16Unorm),
        PixelLayout::Rgba16 => Some(Format::R16G16B16A16Unorm),
        _ => None,
    }
}

/// Whether `len` bytes hold a `width` by `height` picture of three bytes
/// per pixel, the byte count being computed in `usize` from the left.
pub open spec fn spec_rgb_fits(width: u32, height: u32, len: nat) -> bool {
    3 * width <= usize::MAX && 3 * width * height <= len
}

/// The first `count` pixels of three bytes each, every one followed by a
/// fourth byte of 255.
pub open spec fn spec_attach_alpha(pixels: Seq<u8>, count: nat) -> Seq<u8> {
    Seq::new(
        4 * count,
        |at: int|
            if at % 4 == 3 {
                255u8
            } else {
                pixels[(at / 4) * 3 + at % 4]
            },
    )
}

/// The first `count` pixels of three samples of two bytes each, every
/// one followed by a fourth sample of two bytes of 255: the largest
/// sample there is, in either byte order.
pub open spec fn spec_attach_alpha_16(pixels: Seq<u8>, count: nat) -> Seq<u8> {
    Seq::new(
        8 * count,
        |at: int|
            if at % 8 >= 6 {
                255u8
            } else {
                pixels[(at / 8) * 6 + at % 8]
            },
    )
}

/// Whether `len` bytes hold a `width` by `height` picture in `format`.
pub open spec fn spec_holds_picture(format: Format, width: u32, height: u32, len: nat) -> bool {
    format.spec_bytes_per_pixel() * width * height <= len
}

/// The pixels of a picture in a format in need of alpha, once every
/// pixel of its extent has an opaque alpha sample.
pub open spec fn spec_with_alpha_samples(
    format: Format,
    width: u32,
    height: u32,
    pixels: Seq<u8>,
) -> Seq<u8> {
    if format.spec_is_48bit() {
        spec_attach_alpha_16(pixels, (width * height) as nat)
    } else {
        spec_attach_alpha(pixels, (width * height) as nat)
    }
}

/// The two bytes of a sample, the low one first.
pub open spec fn spec_sample(low: u8, high: u8) -> u16 {
    (low + 256 * high) as u16
}

/// Pixels of three channels of four bytes each, every one followed by
/// the four bytes of `opaque`. Bytes after the last whole pixel are
/// dropped.
pub open spec fn spec_attach_wide_alpha(pixels: Seq<u8>, opaque: Seq<u8>) -> Seq<u8> {
    Seq::new(
        16 * (pixels.len() / 12),
        |at: int|
            if at % 16 >= 12 {
                opaque[at % 16 - 12]
            } else {
                pixels[(at / 16) * 12 + at % 16]
            },
    )
}

/// Alpha synthesis makes the pixel bytes exactly four thirds as long,
/// for samples of one byte and of two.
pub proof fn lemma_attach_alpha_len(pixels: Seq<u8>, count: nat)
    ensures
        pixels.len() == 3 * count ==> 3 * spec_attach_alpha(pixels, count).len() == 4
            * pixels.len(),
        pixels.len() == 6 * count ==> 3 * spec_attach_alpha_16(pixels, count).len() == 4
            * pixels.len(),
{
}

/// Calls `image::ImageBuffer::<Rgb<u8>, Vec<u8>>::from_raw` on a copy of
/// `bytes` and hands the container back out with `into_raw`. The crate
/// accepts the bytes if three times the width times the height, computed
/// with `checked_mul` in `usize`, is at most their number, and then keeps
/// them as they are; otherwise it returns nothing.
#[verifier::external_body]
fn rgb_buffer_from_raw(width: u32, height: u32, bytes: &Vec<u8>) -> (buffer: Option<Vec<u8>>)
    ensures
        spec_rgb_fits(width, height, bytes@.len()) ==> buffer is Some && buffer->0@ == bytes@,
        !spec_rgb_fits(width, height, bytes@.len()) ==> buffer is None,
{
    match image::ImageBuffer::<image::Rgb<u8>, Vec<u8>>::from_raw(width, height, bytes.to_vec()) {
        Some(buffer) => Some(buffer.into_raw()),
        None => None,
    }
}

/// Calls `image::Pixel::to_rgba` on an 8-bit `image::Rgb` pixel and reads
/// the result with `channels4`. The crate copies the three channels and
/// sets alpha to the largest value of the channel type.
#[verifier::external_body]
fn rgb_to_rgba(red: u8, green: u8, blue: u8) -> (pixel: (u8, u8, u8, u8))
    ensures
        pixel == (red, green, blue, 255u8),
{
    image::Pixel::channels4(&image::Pixel::to_rgba(&image::Rgb([red, green, blue])))
}

/// Calls `image::ImageBuffer::<Rgb<u16>, Vec<u16>>::from_raw` on a copy
/// of `samples` and hands the container back out with `into_raw`. The
/// crate accepts the samples if three times the width times the height,
/// computed with `checked_mul` in `usize`, is at most their number, and
/// then keeps them as they are; otherwise it returns nothing.
#[verifier::external_body]
fn rgb16_buffer_from_raw(width: u32, height: u32, samples: &Vec<u16>) -> (buffer: Option<
    Vec<u16>,
>)
    ensures
        spec_rgb_fits(width, height, samples@.len()) ==> buffer is Some && buffer->0@
            == samples@,
        !spec_rgb_fits(width, height, samples@.len()) ==> buffer is None,
{
    match image::ImageBuffer::<image::Rgb<u16>, Vec<u16>>::from_raw(
        width,
        height,
        samples.to_vec(),
    ) {
        Some(buffer) => Some(buffer.into_raw()),
        None => None,
    }
}

/// Calls `image::Pixel::to_rgba` on a 16-bit `image::Rgb` pixel and reads
/// the result with `channels4`. The crate copies the three channels and
/// sets alpha to the largest value of the channel type.
#[verifier::external_body]
fn rgb16_to_rgba16(red: u16, green: u16, blue: u16) -> (pixel: (u16, u16, u16, u16))
    ensures
        pixel == (red, green, blue, 0xffffu16),
{
    image::Pixel::channels4(&image::Pixel::to_rgba(&image::Rgb([red, green, blue])))
}

/// A sample gives back the two bytes that it was read from.
proof fn lemma_sample_bytes(low: u8, high: u8)
    ensures
        spec_sample(low, high) % 256 == low,
        spec_sample(low, high) / 256 == high,
        (spec_sample(low, high) % 256) as u8 == low,
        (spec_sample(low, high) / 256) as u8 == high,
{
}

fn sample_of(low: u8, high: u8) -> (sample: u16)
    ensures
        sample == spec_sample(low, high),
{
    let sample: u16 = (low as u16) + 256 * (high as u16);
    sample
}

fn push_sample(bytes: &mut Vec<u8>, sample: u16)
    ensures
        final(bytes)@ == old(bytes)@.push((sample % 256) as u8).push((sample / 256) as u8),
{
    let low: u16 = sample % 256;
    let high: u16 = sample / 256;
    bytes.push(low as u8);
    bytes.push(high as u8);
}

/// What it takes to create a GPU image.
#[derive(Debug, Clone, Copy, PartialEq, Eq, Structural)]
pub struct ImageCreateInfo {
    pub extent: Extent3D,
    pub mip_levels: u32,
    pub array_layers: u32,
    pub format: Format,
    pub initial_layout: ImageLayout,
    pub usage: ImageUsageFlags,
    pub samples: SampleCount,
    pub cube_compatible: bool,
}

/// A picture on the CPU side: format, extent, pixel bytes and the number
/// of mipmap levels that the GPU image will have.
#[derive(Debug, Clone, PartialEq, Eq)]
pub struct ImageDescription {
    pub format: Format,
    pub width: u32,
    pub height: u32,
    pub pixels: Vec<u8>,
    pub mip_levels: u32,
}

impl ImageDescription {
    /// The creation request for this description with `layers` array
    /// layers: a two-dimensional single-sampled image of undefined initial
    /// layout that can be copied from, copied to and sampled.
    pub open spec fn spec_create_info(self, cube_compatible: bool, layers: u32) -> ImageCreateInfo {
        ImageCreateInfo {
            extent: Extent3D { width: self.width, height: self.height, depth: 1 },
            mip_levels: self.mip_levels,
            array_layers: layers,
            format: self.format,
            initial_layout: ImageLayout::Undefined,
            usage: ImageUsageFlags {
                bits: USAGE_TRANSFER_SRC | USAGE_TRANSFER_DST | USAGE_SAMPLED,
            },
            samples: SampleCount::Type1,
            cube_compatible,
        }
    }

    /// Whether mipmaps can be generated for the picture: a blit names
    /// its corners by signed numbers of 32 bits, which both sides have to
    /// fit.
    pub open spec fn spec_blittable(self) -> bool {
        self.width <= i32::MAX && self.height <= i32::MAX
    }

    /// Whether the picture can be uploaded: it has a level to upload
    /// into, and mipmaps can be generated for it.
    pub open spec fn spec_uploadable(self) -> bool {
        self.mip_levels >= 1 && self.spec_blittable()
    }

    /// Whether the picture can be uploaded.
    pub fn is_uploadable(&self) -> (uploadable: bool)
        ensures
            uploadable == self.spec_uploadable(),
    {
        self.mip_levels >= 1 && self.width <= 0x7fff_ffff && self.height <= 0x7fff_ffff
    }

    /// A description without pixels.
    pub fn empty(width: u32, height: u32, format: Format) -> (description: Self)
        ensures
            description.format == format,
            description.width == width,
            description.height == height,
            description.pixels@ == Seq::<u8>::empty(),
            description.mip_levels == spec_mip_levels(width as nat, height as nat),
    {
        Self {
            format,
            width,
            height,
            pixels: Vec::new(),
            mip_levels: calculate_mip_levels(width, height),
        }
    }

    /// The description of a decoded high dynamic range picture: `texels`
    /// holds three single-precision channels for each pixel, and every
    /// pixel comes out with a fourth, the bytes of which are `opaque`.
    pub fn from_hdr(width: u32, height: u32, texels: &Vec<u8>, opaque: [u8; 4]) -> (description:
        Self)
        ensures
            description.format == Format::R32G32B32A32Sfloat,
            description.width == width,
            description.height == height,
            description.mip_levels == spec_mip_levels(width as nat, height as nat),
            description.pixels@ == spec_attach_wide_alpha(texels@, opaque@),
    {
        let len: usize = texels.len();
        let count: usize = len / 12;
        let mut pixels: Vec<u8> = Vec::new();
        let mut index: usize = 0;
        while index < count
            invariant
                index <= count,
                len == texels@.len(),
                count == len / 12,
                pixels@.len() == 16 * index,
                forall|at: int|
                    0 <= at < 16 * index ==> #[trigger] pixels@[at] == if at % 16 >= 12 {
                        opaque@[at % 16 - 12]
                    } else {
                        texels@[(at / 16) * 12 + at % 16]
                    },
            decreases count - index,
        {
            let mut channel: usize = 0;
            while channel < 12
                invariant
                    channel <= 12,
                    index < count,
                    len == texels@.len(),
                    count == len / 12,
                    pixels@.len() == 16 * index + channel,
                    forall|at: int|
                        0 <= at < 16 * index + channel ==> #[trigger] pixels@[at] == if at % 16
                            >= 12 {
                            opaque@[at % 16 - 12]
                        } else {
                            texels@[(at / 16) * 12 + at % 16]
                        },
                decreases 12 - channel,
            {
                pixels.push(texels[12 * index + channel]);
                channel = channel + 1;
            }
            pixels.push(opaque[0]);
            pixels.push(opaque[1]);
            pixels.push(opaque[2]);
            pixels.push(opaque[3]);
            index = index + 1;
        }
        assert(pixels@ =~= spec_attach_wide_alpha(texels@, opaque@));
        Self {
            format: Format::R32G32B32A32Sfloat,
            width,
            height,
            pixels,
            mip_levels: calculate_mip_levels(width, height),
        }
    }

    /// The description of a decoded picture. A layout without a GPU format
    /// is refused, and so is a picture that has not exactly the bytes of
    /// its pixels. A picture of three channels comes out with an opaque
    /// alpha channel, so that no description has a format of three
    /// channels.
    pub fn from_image(image: &DecodedImage) -> (outcome: Result<Self, Error>)
        ensures
            outcome is Ok <==> spec_format_of(image.layout) is Some && image.spec_well_formed(),
            outcome is Err ==> outcome->Err_0 == Error::InvalidPixelData,
            outcome is Ok ==> {
                let format = spec_format_of(image.layout)->0;
                let description = outcome->Ok_0;
                &&& description.format == format.spec_with_alpha()
                &&& !description.format.spec_needs_alpha()
                &&& description.width == image.width
                &&& description.height == image.height
                &&& description.mip_levels == spec_mip_levels(
                    image.width as nat,
                    image.height as nat,
                )
                &&& description.pixels@ == if format.spec_needs_alpha() {
                    spec_with_alpha_samples(format, image.width, image.height, image.bytes@)
                } else {
                    image.bytes@
                }
                &&& description.pixels@.len() == description.format.spec_bytes_per_pixel()
                    * image.width * image.height
            },
    {
        let format = match format_of(image.layout) {
            Some(format) => format,
            None => {
                return Err(Error::InvalidPixelData);
            },
        };
        if !image.is_well_formed() {
            return Err(Error::InvalidPixelData);
        }
        let mut description = Self {
            format,
            width: image.width,
            height: image.height,
            pixels: image.bytes.clone(),
            mip_levels: calculate_mip_levels(image.width, image.height),
        };
        assert(description.pixels@ =~= image.bytes@);
        proof {
            let width = image.width as int;
            let height = image.height as int;
            assert(4 * width * height == 4 * (width * height) && 8 * width * height == 8 * (width
                * height)) by (nonlinear_arith);
        }
        match description.convert_24bit_formats() {
            Ok(()) => Ok(description),
            Err(error) => Err(error),
        }
    }

    /// Number of mipmap levels of a `width` by `height` image: the one
    /// number whose power of two is the first beyond the shorter side.
    pub fn calculate_mip_levels(width: u32, height: u32) -> (levels: u32)
        ensures
            levels == spec_mip_levels(width as nat, height as nat),
            levels <= 32,
            width >= 1 && height >= 1 ==> {
                let shorter = if width <= height { width } else { height };
                pow2((levels - 1) as nat) <= shorter < pow2(levels as nat)
            },
    {
        calculate_mip_levels(width, height)
    }

    /// Gives a description of three channels, of one byte or of two, its
    /// alpha channel; any other stays as it is. The format is widened
    /// even where the pixel bytes are too few to follow.
    pub fn convert_24bit_formats(&mut self) -> (outcome: Result<(), Error>)
        ensures
            final(self).format == old(self).format.spec_with_alpha(),
            final(self).width == old(self).width,
            final(self).height == old(self).height,
            final(self).mip_levels == old(self).mip_levels,
            old(self).format.spec_needs_alpha() && !spec_holds_picture(
                old(self).format,
                old(self).width,
                old(self).height,
                old(self).pixels@.len(),
            ) ==> outcome == Err::<(), Error>(Error::InvalidPixelData) && final(self).pixels@
                == old(self).pixels@,
            old(self).format.spec_needs_alpha() && spec_holds_picture(
                old(self).format,
                old(self).width,
                old(self).height,
                old(self).pixels@.len(),
            ) ==> outcome == Ok::<(), Error>(()) && final(self).pixels@
                == spec_with_alpha_samples(
                old(self).format,
                old(self).width,
                old(self).height,
                old(self).pixels@,
            ),
            !old(self).format.spec_needs_alpha() ==> outcome == Ok::<(), Error>(())
                && final(self).pixels@ == old(self).pixels@,
    {
        if self.format.is_24bit() {
            self.format = self.format.with_alpha();
            self.attach_alpha_channel()
        } else if self.format.is_48bit() {
            self.format = self.format.with_alpha();
            self.attach_alpha_channel_16()
        } else {
            Ok(())
        }
    }

    /// Gives every pixel of three bytes a fourth byte of 255. Bytes beyond
    /// the last pixel of the stated extent are dropped; bytes too few for
    /// the extent are refused.
    pub fn attach_alpha_channel(&mut self) -> (outcome: Result<(), Error>)
        ensures
            final(self).format == old(self).format,
            final(self).width == old(self).width,
            final(self).height == old(self).height,
            final(self).mip_levels == old(self).mip_levels,
            3 * old(self).width * old(self).height <= old(self).pixels@.len() ==> outcome
                == Ok::<(), Error>(()) && final(self).pixels@ == spec_attach_alpha(
                old(self).pixels@,
                (old(self).width * old(self).height) as nat,
            ),
            3 * old(self).width * old(self).height > old(self).pixels@.len() ==> outcome
                == Err::<(), Error>(Error::InvalidPixelData) && final(self).pixels@ == old(
                self,
            ).pixels@,
    {
        let ghost width = self.width as int;
        let ghost height = self.height as int;
        assert(3 * (width * height) == 3 * width * height && 0 <= width * height <= 3 * (width
            * height) && (height >= 1 ==> 3 * width <= 3 * width * height) && (width == 0
            || height == 0 ==> width * height == 0)) by (nonlinear_arith)
            requires
                0 <= width,
                0 <= height,
        ;
        if self.width == 0 || self.height == 0 {
            // A picture without pixels has nothing to widen.
            self.pixels = Vec::new();
            assert(self.pixels@ =~= spec_attach_alpha(old(self).pixels@, 0));
            return Ok(());
        }
        let given: usize = self.pixels.len();
        let source = match rgb_buffer_from_raw(self.width, self.height, &self.pixels) {
            Some(buffer) => buffer,
            None => {
                return Err(Error::InvalidPixelData);
            },
        };
        let len: usize = source.len();
        assert(len == given);
        let count: usize = (self.width as usize) * (self.height as usize);
        let mut widened: Vec<u8> = Vec::new();
        let mut index: usize = 0;
        while index < count
            invariant
                index <= count,
                3 * count <= len,
                len == source@.len(),
                widened@ == spec_attach_alpha(source@, index as nat),
            decreases count - index,
        {
            let pixel = rgb_to_rgba(
                source[3 * index],
                source[3 * index + 1],
                source[3 * index + 2],
            );
            widened.push(pixel.0);
            widened.push(pixel.1);
            widened.push(pixel.2);
            widened.push(pixel.3);
            index = index + 1;
            assert(widened@ =~= spec_attach_alpha(source@, index as nat));
        }
        self.pixels = widened;
        Ok(())
    }

    /// Gives every pixel of three samples of two bytes a fourth sample,
    /// the largest there is. Bytes beyond the last pixel of the stated
    /// extent are dropped; bytes too few for the extent are refused.
    pub fn attach_alpha_channel_16(&mut self) -> (outcome: Result<(), Error>)
        ensures
            final(self).format == old(self).format,
            final(self).width == old(self).width,
            final(self).height == old(self).height,
            final(self).mip_levels == old(self).mip_levels,
            6 * old(self).width * old(self).height <= old(self).pixels@.len() ==> outcome
                == Ok::<(), Error>(()) && final(self).pixels@ == spec_attach_alpha_16(
                old(self).pixels@,
                (old(self).width * old(self).height) as nat,
            ),
            6 * old(self).width * old(self).height > old(self).pixels@.len() ==> outcome
                == Err::<(), Error>(Error::InvalidPixelData) && final(self).pixels@ == old(
                self,
            ).pixels@,
    {
        let ghost width = self.width as int;
        let ghost height = self.height as int;
        assert(6 * (width * height) == 6 * width * height && 3 * (width * height) == 3 * width
            * height && 0 <= width * height <= 3 * (width * height) && (height >= 1 ==> 3 * width
            <= 3 * width * height) && (width == 0 || height == 0 ==> width * height == 0))
            by (nonlinear_arith)
            requires
                0 <= width,
                0 <= height,
        ;
        if self.width == 0 || self.height == 0 {
            // A picture without pixels has nothing to widen.
            self.pixels = Vec::new();
            assert(self.pixels@ =~= spec_attach_alpha_16(old(self).pixels@, 0));
            return Ok(());
        }
        let bytes: usize = self.pixels.len();
        let pairs: usize = bytes / 2;
        let mut samples: Vec<u16> = Vec::new();
        let mut at: usize = 0;
        while at < pairs
            invariant
                at <= pairs,
                pairs == bytes / 2,
                bytes == self.pixels@.len(),
                samples@.len() == at,
                forall|before: int|
                    0 <= before < at ==> #[trigger] samples@[before] == spec_sample(
                        self.pixels@[2 * before],
                        self.pixels@[2 * before + 1],
                    ),
            decreases pairs - at,
        {
            samples.push(sample_of(self.pixels[2 * at], self.pixels[2 * at + 1]));
            at = at + 1;
        }
        let source = match rgb16_buffer_from_raw(self.width, self.height, &samples) {
            Some(buffer) => buffer,
            None => {
                return Err(Error::InvalidPixelData);
            },
        };
        let count: usize = (self.width as usize) * (self.height as usize);
        let ghost pixels = self.pixels@;
        let mut widened: Vec<u8> = Vec::new();
        let mut index: usize = 0;
        while index < count
            invariant
                index <= count,
                3 * count <= pairs,
                pairs == bytes / 2,
                bytes == pixels.len(),
                source@.len() == pairs,
                forall|before: int|
                    0 <= before < pairs ==> #[trigger] source@[before] == spec_sample(
                        pixels[2 * before],
                        pixels[2 * before + 1],
                    ),
                widened@ == spec_attach_alpha_16(pixels, index as nat),
            decreases count - index,
        {
            let pixel = rgb16_to_rgba16(
                source[3 * index],
                source[3 * index + 1],
                source[3 * index + 2],
            );
            proof {
                lemma_sample_bytes(pixels[6 * index], pixels[6 * index + 1]);
                lemma_sample_bytes(pixels[6 * index + 2], pixels[6 * index + 3]);
                lemma_sample_bytes(pixels[6 * index + 4], pixels[6 * index + 5]);
                assert(source@[3 * index] == spec_sample(
                    pixels[2 * (3 * index)],
                    pixels[2 * (3 * index) + 1],
                ));
                assert(source@[3 * index + 1] == spec_sample(
                    pixels[2 * (3 * index + 1)],
                    pixels[2 * (3 * index + 1) + 1],
                ));
                assert(source@[3 * index + 2] == spec_sample(
                    pixels[2 * (3 * index + 2)],
                    pixels[2 * (3 * index + 2) + 1],
                ));
            }
            push_sample(&mut widened, pixel.0);
            push_sample(&mut widened, pixel.1);
            push_sample(&mut widened, pixel.2);
            push_sample(&mut widened, pixel.3);
            index = index + 1;
            assert(widened@ =~= spec_attach_alpha_16(pixels, index as nat));
        }
        self.pixels = widened;
        Ok(())
    }

    /// The creation request for a plain image of this description.
    pub fn as_image(&self) -> (info: ImageCreateInfo)
        ensures
            info == self.spec_create_info(false, 1),
    {
        self.create_image(false, 1)
    }

    /// The creation request for a cube map of this description: six
    /// layers, cube compatible.
    pub fn as_cubemap(&self) -> (info: ImageCreateInfo)
        ensures
            info == self.spec_create_info(true, 6),
    {
        self.create_image(true, 6)
    }

    fn create_image(&self, cube_compatible: bool, layers: u32) -> (info: ImageCreateInfo)
        ensures
            info == self.spec_create_info(cube_compatible, layers),
    {
        let extent = Extent3D { width: self.width, height: self.height, depth: 1 };
        ImageCreateInfo {
            extent,
            mip_levels: self.mip_levels,
            array_layers: layers,
            format: self.format,
            initial_layout: ImageLayout::Undefined,
            usage: ImageUsageFlags {
                bits: USAGE_TRANSFER_SRC | USAGE_TRANSFER_DST | USAGE_SAMPLED,
            },
            samples: SampleCount::Type1,
            cube_compatible,
        }
    }
}

} // verus!
