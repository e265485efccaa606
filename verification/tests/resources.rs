use render_support::command::{ImageCommand, ImageLayoutState};
use render_support::description::{format_of, DecodedImage, ImageDescription, PixelLayout};
use render_support::error::Error;
use render_support::image::{
    AllocatedImage, AllocationOutcome, Cubemap, Image, ImageView, ImageViewHandle, RawImage,
    TeardownCommand, Texture,
};
use render_support::mip::{calculate_mip_levels, MipmapBlitDimensions};
use render_support::transition::{transition_image, ImageLayoutTransitionBuilder};
use render_support::types::{
    AccessFlags, Format, ImageHandle, ImageLayout, Offset3D, PipelineStageFlags,
    ACCESS_TRANSFER_READ, ACCESS_TRANSFER_WRITE, QUEUE_FAMILY_IGNORED, STAGE_TRANSFER,
};

fn description(width: u32, height: u32, format: Format, pixels: Vec<u8>) -> ImageDescription {
    ImageDescription {
        format,
        width,
        height,
        pixels,
        mip_levels: calculate_mip_levels(width, height),
    }
}

#[test]
fn mip_levels_of_square_power_of_two() {
    assert_eq!(calculate_mip_levels(512, 512), 10);
    assert_eq!(ImageDescription::calculate_mip_levels(512, 512), 10);
}

#[test]
fn mip_levels_of_single_pixel() {
    assert_eq!(calculate_mip_levels(1, 1), 1);
}

#[test]
fn mip_levels_follow_shorter_side() {
    assert_eq!(calculate_mip_levels(300, 200), 8);
    assert_eq!(calculate_mip_levels(200, 300), 8);
    assert_eq!(calculate_mip_levels(4096, 2), 2);
}

#[test]
fn mip_levels_at_the_edges() {
    assert_eq!(calculate_mip_levels(0, 5), 0);
    assert_eq!(calculate_mip_levels(5, 0), 0);
    assert_eq!(calculate_mip_levels(2, 2), 2);
    assert_eq!(calculate_mip_levels(3, 3), 2);
    assert_eq!(calculate_mip_levels(u32::MAX, u32::MAX), 32);
    assert_eq!(calculate_mip_levels(33_554_431, 33_554_431), 25);
    assert_eq!(calculate_mip_levels(33_554_432, 33_554_432), 26);
}

#[test]
fn mip_levels_bracket_the_shorter_side() {
    for side in 1u32..2000 {
        let levels = calculate_mip_levels(side, side + 7);
        assert!(1u64 << (levels - 1) <= side as u64);
        assert!((side as u64) < 1u64 << levels);
    }
}

#[test]
fn halving_three_stops_at_one() {
    let first = MipmapBlitDimensions::new(3, 3);
    assert_eq!(first.next_width, 1);
    let second = MipmapBlitDimensions::new(first.next_width, first.next_height);
    assert_eq!(second.width, 1);
    assert_eq!(second.next_width, 1);
    assert_eq!(second.next_height, 1);
}

#[test]
fn halving_keeps_each_axis_apart() {
    let dimensions = MipmapBlitDimensions::new(300, 200);
    assert_eq!(dimensions.width, 300);
    assert_eq!(dimensions.height, 200);
    assert_eq!(dimensions.next_width, 150);
    assert_eq!(dimensions.next_height, 100);
    let odd = MipmapBlitDimensions::new(5, 1);
    assert_eq!(odd.next_width, 2);
    assert_eq!(odd.next_height, 1);
    let negative = MipmapBlitDimensions::new(-8, 0);
    assert_eq!(negative.next_width, 1);
    assert_eq!(negative.next_height, 1);
}

#[test]
fn blit_offsets_span_both_levels() {
    let dimensions = MipmapBlitDimensions::new(64, 32);
    let origin = Offset3D { x: 0, y: 0, z: 0 };
    assert_eq!(dimensions.src_offsets(), [origin, Offset3D { x: 64, y: 32, z: 1 }]);
    assert_eq!(dimensions.dst_offsets(), [origin, Offset3D { x: 32, y: 16, z: 1 }]);
}

#[test]
fn alpha_synthesis_makes_bytes_four_thirds_as_long() {
    let pixels: Vec<u8> = (0u8..24).collect();
    let mut image = description(4, 2, Format::R8G8B8Unorm, pixels.clone());
    assert_eq!(image.convert_24bit_formats(), Ok(()));
    assert_eq!(image.format, Format::R8G8B8A8Unorm);
    assert_eq!(image.format.channel_count(), 4);
    assert_eq!(image.pixels.len() * 3, pixels.len() * 4);
    assert_eq!(image.width, 4);
    assert_eq!(image.height, 2);
}

#[test]
fn alpha_synthesis_keeps_colours_and_adds_opaque_alpha() {
    let mut image = description(2, 1, Format::B8G8R8Unorm, vec![10, 20, 30, 40, 50, 60]);
    assert_eq!(image.convert_24bit_formats(), Ok(()));
    assert_eq!(image.format, Format::B8G8R8A8Unorm);
    assert_eq!(image.pixels, vec![10, 20, 30, 255, 40, 50, 60, 255]);
}

#[test]
fn alpha_synthesis_drops_bytes_beyond_the_extent() {
    let mut image = description(1, 1, Format::R8G8B8Unorm, vec![1, 2, 3, 4, 5]);
    assert_eq!(image.attach_alpha_channel(), Ok(()));
    assert_eq!(image.pixels, vec![1, 2, 3, 255]);
}

#[test]
fn alpha_synthesis_refuses_short_pixels() {
    let mut image = description(2, 2, Format::R8G8B8Unorm, vec![0; 11]);
    assert_eq!(image.convert_24bit_formats(), Err(Error::InvalidPixelData));
    assert_eq!(image.format, Format::R8G8B8A8Unorm);
    assert_eq!(image.pixels, vec![0; 11]);
}

#[test]
fn four_channel_formats_stay_as_they_are() {
    let mut image = description(1, 1, Format::R8G8B8A8Unorm, vec![1, 2, 3, 4]);
    assert_eq!(image.convert_24bit_formats(), Ok(()));
    assert_eq!(image.format, Format::R8G8B8A8Unorm);
    assert_eq!(image.pixels, vec![1, 2, 3, 4]);
    let mut wide = description(1, 1, Format::R16G16B16A16Unorm, vec![1, 2, 3, 4, 5, 6, 7, 8]);
    assert_eq!(wide.convert_24bit_formats(), Ok(()));
    assert_eq!(wide.format, Format::R16G16B16A16Unorm);
    assert_eq!(wide.pixels, vec![1, 2, 3, 4, 5, 6, 7, 8]);
    let mut float = description(1, 1, Format::R32G32B32Sfloat, vec![0; 12]);
    assert_eq!(float.convert_24bit_formats(), Ok(()));
    assert_eq!(float.format, Format::R32G32B32Sfloat);
}

#[test]
fn sixteen_bit_pictures_gain_an_opaque_alpha_sample() {
    let pixels: Vec<u8> = vec![1, 2, 3, 4, 5, 6, 0xff, 0, 0, 0xff, 0x80, 0x7f];
    let mut image = description(2, 1, Format::R16G16B16Unorm, pixels.clone());
    assert_eq!(image.convert_24bit_formats(), Ok(()));
    assert_eq!(image.format, Format::R16G16B16A16Unorm);
    assert_eq!(image.format.channel_count(), 4);
    assert_eq!(image.pixels.len(), 8 * 2);
    assert_eq!(image.pixels.len() * 3, pixels.len() * 4);
    assert_eq!(
        image.pixels,
        vec![1, 2, 3, 4, 5, 6, 0xff, 0xff, 0xff, 0, 0, 0xff, 0x80, 0x7f, 0xff, 0xff]
    );
    assert_eq!((image.width, image.height), (2, 1));
}

#[test]
fn sixteen_bit_pictures_with_too_few_bytes_are_refused() {
    let mut short = description(2, 2, Format::R16G16B16Unorm, vec![0; 23]);
    assert_eq!(short.convert_24bit_formats(), Err(Error::InvalidPixelData));
    assert_eq!(short.format, Format::R16G16B16A16Unorm);
    assert_eq!(short.pixels, vec![0; 23]);
    let mut long = description(1, 1, Format::R16G16B16Unorm, vec![9; 9]);
    assert_eq!(long.attach_alpha_channel_16(), Ok(()));
    assert_eq!(long.pixels, vec![9, 9, 9, 9, 9, 9, 0xff, 0xff]);
}

#[test]
fn pictures_without_pixels_convert_to_nothing() {
    let mut flat = description(0, 7, Format::R8G8B8Unorm, Vec::new());
    assert_eq!(flat.convert_24bit_formats(), Ok(()));
    assert_eq!(flat.format, Format::R8G8B8A8Unorm);
    assert!(flat.pixels.is_empty());
    let mut wide = description(u32::MAX, 0, Format::R16G16B16Unorm, vec![1, 2]);
    assert_eq!(wide.convert_24bit_formats(), Ok(()));
    assert_eq!(wide.format, Format::R16G16B16A16Unorm);
    assert!(wide.pixels.is_empty());
}

#[test]
fn decoded_sixteen_bit_picture_gains_alpha() {
    let decoded = DecodedImage {
        layout: PixelLayout::Rgb16,
        width: 1,
        height: 2,
        bytes: vec![1, 2, 3, 4, 5, 6, 7, 8, 9, 10, 11, 12],
    };
    assert!(decoded.is_well_formed());
    let image = ImageDescription::from_image(&decoded).unwrap();
    assert_eq!(image.format, Format::R16G16B16A16Unorm);
    assert_eq!(image.pixels.len(), 8 * 2);
    assert_eq!(
        image.pixels,
        vec![1, 2, 3, 4, 5, 6, 0xff, 0xff, 7, 8, 9, 10, 11, 12, 0xff, 0xff]
    );
    assert_eq!(image.pixels.len() as u32, image.format.bytes_per_pixel() * 2);
}

#[test]
fn decoded_pictures_need_exactly_their_bytes() {
    let few = DecodedImage { layout: PixelLayout::Rgba8, width: 2, height: 2, bytes: vec![0; 15] };
    assert!(!few.is_well_formed());
    assert_eq!(ImageDescription::from_image(&few), Err(Error::InvalidPixelData));
    let many = DecodedImage { layout: PixelLayout::Rgb8, width: 1, height: 1, bytes: vec![0; 4] };
    assert!(!many.is_well_formed());
    assert_eq!(ImageDescription::from_image(&many), Err(Error::InvalidPixelData));
    let wide = DecodedImage { layout: PixelLayout::Rgba16, width: 1, height: 1, bytes: vec![0; 6] };
    assert_eq!(ImageDescription::from_image(&wide), Err(Error::InvalidPixelData));
    let exact = DecodedImage { layout: PixelLayout::Rgba16, width: 1, height: 1, bytes: vec![3; 8] };
    assert!(exact.is_well_formed());
    assert_eq!(ImageDescription::from_image(&exact).unwrap().pixels, vec![3; 8]);
    let grey = DecodedImage { layout: PixelLayout::Luma16, width: 3, height: 1, bytes: vec![0; 6] };
    assert!(grey.is_well_formed());
    let none = DecodedImage { layout: PixelLayout::Bgra8, width: 0, height: 9, bytes: Vec::new() };
    assert!(none.is_well_formed());
    assert!(ImageDescription::from_image(&none).unwrap().pixels.is_empty());
}

#[test]
fn pictures_too_wide_for_a_blit_are_not_uploadable() {
    assert!(ImageDescription::empty(1, 1, Format::R8G8B8A8Unorm).is_uploadable());
    assert!(ImageDescription::empty(0x7fff_ffff, 1, Format::R8G8B8A8Unorm).is_uploadable());
    assert!(!ImageDescription::empty(0x8000_0000, 1, Format::R8G8B8A8Unorm).is_uploadable());
    assert!(!ImageDescription::empty(1, u32::MAX, Format::R8G8B8A8Unorm).is_uploadable());
    assert!(!ImageDescription::empty(0, 4, Format::R8G8B8A8Unorm).is_uploadable());
}

#[test]
fn a_failed_run_stops_where_the_commands_before_it_led() {
    let image = AllocatedImage::new(ImageHandle { raw: 1 }, 64);
    let commands = vec![
        image.transition_base_to_transfer_dst(2),
        image.transition_mip_transfer_dst_to_src(0),
        image.transition_mip_transfer_dst_to_src(0),
        image.transition_mip_to_shader_read(0),
    ];
    let mut state = ImageLayoutState::new(2);
    assert_eq!(state.apply_all(&commands), Err(Error::LayoutMismatch));
    assert_eq!(state.layout(0), Some(ImageLayout::TransferSrcOptimal));
    assert_eq!(state.layout(1), Some(ImageLayout::TransferDstOptimal));
}

#[test]
fn empty_description_has_levels_and_no_pixels() {
    let image = ImageDescription::empty(256, 128, Format::R32G32B32A32Sfloat);
    assert_eq!(image.mip_levels, 8);
    assert!(image.pixels.is_empty());
    assert_eq!(image.format, Format::R32G32B32A32Sfloat);
}

#[test]
fn decoded_rgb_picture_gains_alpha() {
    let decoded = DecodedImage {
        layout: PixelLayout::Rgb8,
        width: 2,
        height: 2,
        bytes: vec![1, 2, 3, 4, 5, 6, 7, 8, 9, 10, 11, 12],
    };
    let image = ImageDescription::from_image(&decoded).unwrap();
    assert_eq!(image.format, Format::R8G8B8A8Unorm);
    assert_eq!(image.mip_levels, 2);
    assert_eq!(image.pixels, vec![1, 2, 3, 255, 4, 5, 6, 255, 7, 8, 9, 255, 10, 11, 12, 255]);
}

#[test]
fn decoded_pictures_map_to_formats() {
    assert_eq!(format_of(PixelLayout::Rgb8), Some(Format::R8G8B8Unorm));
    assert_eq!(format_of(PixelLayout::Rgba8), Some(Format::R8G8B8A8Unorm));
    assert_eq!(format_of(PixelLayout::Bgr8), Some(Format::B8G8R8Unorm));
    assert_eq!(format_of(PixelLayout::Bgra8), Some(Format::B8G8R8A8Unorm));
    assert_eq!(format_of(PixelLayout::Rgb16), Some(Format::R16G16B16Unorm));
    assert_eq!(format_of(PixelLayout::Rgba16), Some(Format::R16G16B16A16Unorm));
    assert_eq!(format_of(PixelLayout::Luma8), None);
    let rgba = DecodedImage { layout: PixelLayout::Rgba8, width: 1, height: 1, bytes: vec![9; 4] };
    let image = ImageDescription::from_image(&rgba).unwrap();
    assert_eq!(image.format, Format::R8G8B8A8Unorm);
    assert_eq!(image.pixels, vec![9; 4]);
}

#[test]
fn decoded_grey_picture_is_refused() {
    let grey = DecodedImage { layout: PixelLayout::Luma8, width: 1, height: 1, bytes: vec![7] };
    assert_eq!(ImageDescription::from_image(&grey), Err(Error::InvalidPixelData));
    let short = DecodedImage { layout: PixelLayout::Bgr8, width: 3, height: 1, bytes: vec![7; 8] };
    assert_eq!(ImageDescription::from_image(&short), Err(Error::InvalidPixelData));
}

#[test]
fn creation_requests_differ_in_layers() {
    let image = ImageDescription::empty(64, 64, Format::R8G8B8A8Unorm);
    let plain = image.as_image();
    assert_eq!(plain.array_layers, 1);
    assert!(!plain.cube_compatible);
    assert_eq!(plain.mip_levels, 7);
    assert_eq!(plain.extent.width, 64);
    assert_eq!(plain.extent.depth, 1);
    assert_eq!(plain.usage.bits, 0x7);
    assert_eq!(plain.initial_layout, ImageLayout::Undefined);
    let cube = image.as_cubemap();
    assert_eq!(cube.array_layers, 6);
    assert!(cube.cube_compatible);
}

#[test]
fn builder_defaults_and_mandatory_fields() {
    let complete = ImageLayoutTransitionBuilder::default()
        .old_layout(ImageLayout::TransferDstOptimal)
        .new_layout(ImageLayout::TransferSrcOptimal)
        .src_access_mask(AccessFlags { bits: ACCESS_TRANSFER_WRITE })
        .dst_access_mask(AccessFlags { bits: ACCESS_TRANSFER_READ })
        .src_stage_mask(PipelineStageFlags { bits: STAGE_TRANSFER })
        .dst_stage_mask(PipelineStageFlags { bits: STAGE_TRANSFER })
        .build()
        .unwrap();
    assert_eq!(complete.base_mip_level, 0);
    assert_eq!(complete.level_count, 1);
    assert_eq!(complete.layer_count, 1);
    let custom = ImageLayoutTransitionBuilder::default()
        .base_mip_level(3)
        .level_count(4)
        .layer_count(6)
        .old_layout(ImageLayout::Undefined)
        .new_layout(ImageLayout::General)
        .src_access_mask(AccessFlags { bits: 0 })
        .dst_access_mask(AccessFlags { bits: 0 })
        .src_stage_mask(PipelineStageFlags { bits: 1 })
        .dst_stage_mask(PipelineStageFlags { bits: 1 })
        .build()
        .unwrap();
    assert_eq!((custom.base_mip_level, custom.level_count, custom.layer_count), (3, 4, 6));
    let missing = ImageLayoutTransitionBuilder::default()
        .old_layout(ImageLayout::Undefined)
        .new_layout(ImageLayout::General)
        .build();
    assert_eq!(missing, Err(Error::UninitializedField));
}

#[test]
fn transition_becomes_a_colour_barrier() {
    let transition = ImageLayoutTransitionBuilder::default()
        .base_mip_level(2)
        .old_layout(ImageLayout::TransferDstOptimal)
        .new_layout(ImageLayout::ShaderReadOnlyOptimal)
        .src_access_mask(AccessFlags { bits: ACCESS_TRANSFER_WRITE })
        .dst_access_mask(AccessFlags { bits: 0x20 })
        .src_stage_mask(PipelineStageFlags { bits: STAGE_TRANSFER })
        .dst_stage_mask(PipelineStageFlags { bits: 0x80 })
        .build()
        .unwrap();
    let barrier = transition_image(ImageHandle { raw: 42 }, &transition);
    assert_eq!(barrier.src_stage_mask.bits, STAGE_TRANSFER);
    assert_eq!(barrier.dst_stage_mask.bits, 0x80);
    let inner = barrier.image_memory_barrier;
    assert_eq!(inner.image, ImageHandle { raw: 42 });
    assert_eq!(inner.src_queue_family_index, QUEUE_FAMILY_IGNORED);
    assert_eq!(inner.dst_queue_family_index, QUEUE_FAMILY_IGNORED);
    assert_eq!(inner.subresource_range.base_mip_level, 2);
    assert_eq!(inner.subresource_range.level_count, 1);
    assert_eq!(inner.subresource_range.base_array_layer, 0);
    assert_eq!(inner.old_layout, ImageLayout::TransferDstOptimal);
    assert_eq!(inner.new_layout, ImageLayout::ShaderReadOnlyOptimal);
}

#[test]
fn upload_leaves_every_level_readable() {
    let image = AllocatedImage::new(ImageHandle { raw: 7 }, 4096);
    let pixels = description(16, 8, Format::R8G8B8A8Unorm, vec![0; 16 * 8 * 4]);
    assert_eq!(pixels.mip_levels, 4);
    let commands = image.upload_data(true, &pixels).unwrap();
    assert_eq!(commands.len(), 3 + 3 * 3 + 1);
    assert_eq!(commands[0], ImageCommand::StageUpload { buffer_size: 4096, byte_count: 512 });
    let mut state = ImageLayoutState::new(4);
    assert_eq!(state.level_count(), 4);
    assert_eq!(state.layout(0), Some(ImageLayout::Undefined));
    assert_eq!(state.apply_all(&commands), Ok(()));
    for level in 0..4 {
        assert_eq!(state.layout(level), Some(ImageLayout::ShaderReadOnlyOptimal));
    }
    assert_eq!(state.layout(4), None);
}

#[test]
fn upload_blits_halve_each_level() {
    let image = AllocatedImage::new(ImageHandle { raw: 7 }, 1024);
    let pixels = description(3, 5, Format::R8G8B8A8Unorm, vec![0; 60]);
    assert_eq!(pixels.mip_levels, 2);
    let commands = image.generate_mipmaps(&pixels);
    assert_eq!(commands.len(), 3);
    match commands[1] {
        ImageCommand::BlitImage(blit) => {
            assert_eq!(blit.region.src_subresource.mip_level, 0);
            assert_eq!(blit.region.dst_subresource.mip_level, 1);
            assert_eq!(blit.region.src_offsets[1], Offset3D { x: 3, y: 5, z: 1 });
            assert_eq!(blit.region.dst_offsets[1], Offset3D { x: 1, y: 2, z: 1 });
            assert_eq!(blit.src_image_layout, ImageLayout::TransferSrcOptimal);
            assert_eq!(blit.dst_image_layout, ImageLayout::TransferDstOptimal);
        }
        _ => panic!("the second command of a level is its blit"),
    }
    let deep = description(300, 200, Format::R8G8B8A8Unorm, Vec::new());
    let chain = image.generate_mipmaps(&deep);
    assert_eq!(chain.len(), 21);
    match chain[19] {
        ImageCommand::BlitImage(blit) => {
            assert_eq!(blit.region.src_offsets[1], Offset3D { x: 4, y: 3, z: 1 });
            assert_eq!(blit.region.dst_offsets[1], Offset3D { x: 2, y: 1, z: 1 });
        }
        _ => panic!("the second command of a level is its blit"),
    }
}

#[test]
fn upload_needs_linear_blits_for_more_than_one_level() {
    let image = AllocatedImage::new(ImageHandle { raw: 1 }, 64);
    let many = description(4, 4, Format::R8G8B8A8Unorm, vec![0; 64]);
    assert_eq!(image.upload_data(false, &many), Err(Error::UnsupportedFormat));
    let one = description(1, 1, Format::R8G8B8A8Unorm, vec![0; 4]);
    let commands = image.upload_data(false, &one).unwrap();
    assert_eq!(commands.len(), 4);
    let mut state = ImageLayoutState::new(1);
    assert_eq!(state.apply_all(&commands), Ok(()));
    assert_eq!(state.layout(0), Some(ImageLayout::ShaderReadOnlyOptimal));
}

#[test]
fn commands_out_of_order_are_mismatches() {
    let image = AllocatedImage::new(ImageHandle { raw: 1 }, 64);
    let mut state = ImageLayoutState::new(2);
    let to_source = image.transition_mip_transfer_dst_to_src(0);
    assert_eq!(state.apply(&to_source), Err(Error::LayoutMismatch));
    assert_eq!(state.layout(0), Some(ImageLayout::Undefined));
    assert_eq!(state.apply(&image.transition_base_to_transfer_dst(2)), Ok(()));
    assert_eq!(state.layout(1), Some(ImageLayout::TransferDstOptimal));
    let blit = image.blit_mipmap(&MipmapBlitDimensions::new(2, 2), 1);
    assert_eq!(state.apply(&blit), Err(Error::LayoutMismatch));
    assert_eq!(state.apply(&to_source), Ok(()));
    assert_eq!(state.apply(&blit), Ok(()));
    assert_eq!(state.apply(&image.transition_base_to_transfer_dst(3)), Err(Error::LayoutMismatch));
    assert_eq!(state.apply(&image.transition_mip_to_shader_read(0)), Ok(()));
    assert_eq!(state.apply(&image.transition_base_to_shader_read(1)), Ok(()));
    assert_eq!(state.layout(0), Some(ImageLayout::ShaderReadOnlyOptimal));
    assert_eq!(state.layout(1), Some(ImageLayout::ShaderReadOnlyOptimal));
    let copy = image.copy_to_gpu_buffer(&description(2, 2, Format::R8G8B8A8Unorm, Vec::new()));
    assert_eq!(state.apply(&copy), Err(Error::LayoutMismatch));
}

#[test]
fn cubemap_without_pixels_uploads_nothing() {
    let image = AllocatedImage::new(ImageHandle { raw: 3 }, 64);
    let empty = ImageDescription::empty(4, 4, Format::R8G8B8A8Unorm);
    assert_eq!(Cubemap::upload_commands(&image, false, &empty), Ok(Vec::new()));
    let filled = description(4, 4, Format::R8G8B8A8Unorm, vec![0; 64]);
    assert_eq!(Cubemap::upload_commands(&image, true, &filled).unwrap().len(), 3 + 6 + 1);
    assert_eq!(Texture::upload_commands(&image, true, &empty).unwrap().len(), 3 + 6 + 1);
    let view = Cubemap::image_view(&image, &filled);
    assert_eq!(view.subresource_range.layer_count, 6);
    assert_eq!(view.subresource_range.level_count, 3);
    let flat = Texture::image_view(&image, &filled);
    assert_eq!(flat.subresource_range.layer_count, 1);
    assert_eq!(flat.image, ImageHandle { raw: 3 });
}

#[test]
fn images_hand_out_their_handles() {
    let raw = RawImage(ImageHandle { raw: 11 });
    assert_eq!(raw.handle(), ImageHandle { raw: 11 });
    let owned = AllocatedImage::new(ImageHandle { raw: 12 }, 1);
    assert_eq!(owned.handle(), ImageHandle { raw: 12 });
}

#[test]
fn hdr_texels_gain_an_opaque_channel() {
    let one = 1.0f32.to_ne_bytes();
    let texels: Vec<u8> = (0u8..26).collect();
    let image = ImageDescription::from_hdr(2, 1, &texels, one);
    assert_eq!(image.format, Format::R32G32B32A32Sfloat);
    assert_eq!(image.mip_levels, 1);
    assert_eq!(image.pixels.len(), 32);
    assert_eq!(&image.pixels[0..12], &texels[0..12]);
    assert_eq!(&image.pixels[12..16], &one[..]);
    assert_eq!(&image.pixels[16..28], &texels[12..24]);
    assert_eq!(&image.pixels[28..32], &one[..]);
    assert!(ImageDescription::from_hdr(4, 4, &Vec::new(), one).pixels.is_empty());
}

#[test]
fn allocator_refusal_is_an_allocation_error() {
    assert_eq!(
        AllocatedImage::from_allocation(AllocationOutcome::Refused),
        Err(Error::Allocation)
    );
    let created = AllocationOutcome::Created { handle: ImageHandle { raw: 5 }, size: 2048 };
    let image = AllocatedImage::from_allocation(created).unwrap();
    assert_eq!(image.handle, ImageHandle { raw: 5 });
    assert_eq!(image.allocation_size, 2048);
    let texture = Texture::new(image, ImageView { handle: ImageViewHandle { raw: 6 } });
    assert_eq!(
        texture.destroy(),
        vec![
            TeardownCommand::DestroyImageView { view: ImageViewHandle { raw: 6 } },
            TeardownCommand::DestroyImage { image: ImageHandle { raw: 5 } },
        ]
    );
    let cube = Cubemap::new(
        AllocatedImage::new(ImageHandle { raw: 8 }, 1),
        ImageView { handle: ImageViewHandle { raw: 9 } },
    );
    assert_eq!(cube.destroy().len(), 2);
    assert_eq!(
        AllocatedImage::new(ImageHandle { raw: 8 }, 1).destroy(),
        TeardownCommand::DestroyImage { image: ImageHandle { raw: 8 } }
    );
}
