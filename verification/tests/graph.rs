use render_support::error::Error;
use render_support::names::{backbuffer_name, find_name, is_backbuffer_name};
use render_support::image::ImageViewType;
use render_support::rendergraph::{
    attachment_view, AttachmentReference, AttachmentRole, ClearValue, ImageNode, ImageSource,
    LoadOp, RenderGraph, StoreOp, SubpassRef,
};
use render_support::transition::ImageAspect;
use render_support::types::{Extent2D, Format, ImageHandle, ImageLayout, SampleCount};

fn node(name: &str, format: Format, force_store: bool, force_shader_read: bool) -> ImageNode {
    ImageNode {
        name: name.to_string(),
        extent: Extent2D { width: 800, height: 600 },
        format,
        clear_value: ClearValue { bits: [0x3ec7_ae14, 0x3f14_7ae1, 0x3f6b_851f, 0x3f80_0000] },
        samples: SampleCount::Type1,
        force_store,
        force_shader_read,
    }
}

fn names(list: &[&str]) -> Vec<String> {
    list.iter().map(|name| name.to_string()).collect()
}

fn edges(list: &[(&str, &str)]) -> Vec<(String, String)> {
    list.iter().map(|(pass, node)| (pass.to_string(), node.to_string())).collect()
}

fn window_graph() -> RenderGraph {
    let backbuffer = backbuffer_name(0);
    RenderGraph::build(
        names(&["color"]),
        vec![node(&backbuffer, Format::B8G8R8A8Unorm, false, false)],
        edges(&[("color", &backbuffer)]),
    )
    .unwrap()
}

fn images(count: u64, base: u64) -> Vec<ImageHandle> {
    (0..count).map(|at| ImageHandle { raw: base + at }).collect()
}

#[test]
fn backbuffer_names_are_indexed() {
    assert_eq!(backbuffer_name(0), "backbuffer_0");
    assert_eq!(RenderGraph::backbuffer_name(3), "backbuffer_3");
    assert_eq!(backbuffer_name(7), "backbuffer_7");
    assert_eq!(backbuffer_name(12), "backbuffer_12");
    assert_eq!(backbuffer_name(1030), "backbuffer_1030");
    assert_ne!(backbuffer_name(1), backbuffer_name(10));
}

#[test]
fn backbuffer_names_are_reserved() {
    assert!(is_backbuffer_name("backbuffer_0"));
    assert!(is_backbuffer_name(&backbuffer_name(31)));
    assert!(is_backbuffer_name("backbuffer_10"));
    assert!(is_backbuffer_name("backbuffer_18446744073709551616"));
    assert!(!is_backbuffer_name("backbuffer_"));
    assert!(!is_backbuffer_name("backbuffer_x"));
    assert!(!is_backbuffer_name("backbuffer_1x"));
    assert!(!is_backbuffer_name("backbuffer_01"));
    assert!(!is_backbuffer_name("backbuffer_00"));
    assert!(!is_backbuffer_name("backbuffer_-1"));
    assert!(!is_backbuffer_name("backbuffer_0 "));
    assert!(!is_backbuffer_name("backbuffer"));
    assert!(!is_backbuffer_name("color"));
    assert!(!is_backbuffer_name("Backbuffer_0"));
    assert!(!is_backbuffer_name(""));
}

#[test]
fn names_resolve_to_their_first_entry() {
    let list = names(&["shadow", "color", "shadow"]);
    assert_eq!(find_name(&list, "shadow"), Some(0));
    assert_eq!(find_name(&list, "color"), Some(1));
    assert_eq!(find_name(&list, "post"), None);
}

#[test]
fn lookup_of_undeclared_pass_is_an_error() {
    let graph = window_graph();
    assert_eq!(graph.pass("shadow").err(), Some(Error::UnknownPass));
    assert_eq!(graph.execute_pass("shadow", 0), Err(Error::UnknownPass));
    assert_eq!(graph.pass("color").unwrap().name, "color");
}

#[test]
fn lookup_of_undeclared_node_is_an_error() {
    let graph = window_graph();
    assert_eq!(graph.node("depth").err(), Some(Error::UnknownNode));
    assert_eq!(graph.node("backbuffer_0").unwrap().format, Format::B8G8R8A8Unorm);
}

#[test]
fn image_index_beyond_the_backbuffers_is_out_of_bounds() {
    let mut graph = window_graph();
    assert_eq!(graph.execute_pass("color", 0), Err(Error::ImageIndexOutOfBounds));
    graph.insert_backbuffer_images(images(3, 100));
    assert_eq!(graph.execute_pass("color", 3), Err(Error::ImageIndexOutOfBounds));
    assert_eq!(graph.execute_pass("color", usize::MAX), Err(Error::ImageIndexOutOfBounds));
    let execution = graph.execute_pass("color", 2).unwrap();
    assert_eq!(execution.pass, 0);
    assert_eq!(execution.framebuffer, 2);
    assert_eq!(execution.extent, Extent2D { width: 800, height: 600 });
}

#[test]
fn dangling_edges_fail_validation() {
    let backbuffer = backbuffer_name(0);
    let nodes = vec![node(&backbuffer, Format::B8G8R8A8Unorm, false, false)];
    let no_pass = RenderGraph::build(
        names(&["color"]),
        nodes.clone(),
        edges(&[("shadow", &backbuffer)]),
    );
    assert_eq!(no_pass.err(), Some(Error::GraphValidation));
    let no_node = RenderGraph::build(names(&["color"]), nodes, edges(&[("color", "depth")]));
    assert_eq!(no_node.err(), Some(Error::GraphValidation));
}

#[test]
fn pass_without_attachments_fails_validation() {
    let backbuffer = backbuffer_name(0);
    let nodes = vec![node(&backbuffer, Format::B8G8R8A8Unorm, false, false)];
    let idle = RenderGraph::build(
        names(&["color", "post"]),
        nodes.clone(),
        edges(&[("color", &backbuffer)]),
    );
    assert_eq!(idle.err(), Some(Error::GraphValidation));
    let empty = RenderGraph::build(names(&["color"]), nodes.clone(), Vec::new());
    assert_eq!(empty.err(), Some(Error::GraphValidation));
    let twice = RenderGraph::build(
        names(&["color", "color"]),
        nodes,
        edges(&[("color", &backbuffer), ("color", &backbuffer)]),
    );
    assert_eq!(twice.err(), Some(Error::GraphValidation));
    let nothing = RenderGraph::build(Vec::new(), Vec::new(), Vec::new()).unwrap();
    assert!(nothing.passes.is_empty());
}

#[test]
fn attachments_follow_the_flags_of_their_nodes() {
    let graph = RenderGraph::build(
        names(&["offscreen", "color"]),
        vec![
            node("albedo", Format::R8G8B8A8Unorm, false, true),
            node("depth", Format::D32Sfloat, false, false),
            node("history", Format::R8G8B8A8Unorm, true, false),
            node("backbuffer_0", Format::B8G8R8A8Unorm, false, false),
        ],
        edges(&[
            ("offscreen", "albedo"),
            ("color", "backbuffer_0"),
            ("offscreen", "depth"),
            ("offscreen", "history"),
        ]),
    )
    .unwrap();
    assert_eq!(graph.edges, vec![(0, 0), (1, 3), (0, 1), (0, 2)]);
    let offscreen = graph.pass("offscreen").unwrap();
    assert!(!offscreen.presents);
    assert_eq!(offscreen.attachments.len(), 3);
    let albedo = offscreen.attachments[0];
    assert_eq!(albedo.node, 0);
    assert_eq!(albedo.role, AttachmentRole::Color);
    assert_eq!(albedo.load_op, LoadOp::Clear);
    assert_eq!(albedo.store_op, StoreOp::DontCare);
    assert_eq!(albedo.initial_layout, ImageLayout::Undefined);
    assert_eq!(albedo.final_layout, ImageLayout::ShaderReadOnlyOptimal);
    let depth = offscreen.attachments[1];
    assert_eq!(depth.role, AttachmentRole::Depth);
    assert_eq!(depth.store_op, StoreOp::DontCare);
    assert_eq!(depth.final_layout, ImageLayout::DepthStencilAttachmentOptimal);
    let history = offscreen.attachments[2];
    assert_eq!(history.store_op, StoreOp::Store);
    assert_eq!(history.final_layout, ImageLayout::ColorAttachmentOptimal);
    assert_eq!(offscreen.framebuffers.len(), 1);
    assert_eq!(
        offscreen.framebuffers[0].images,
        vec![ImageSource::Owned(0), ImageSource::Owned(1), ImageSource::Owned(2)]
    );
    assert_eq!(graph.execute_pass("offscreen", 0), Err(Error::ImageIndexOutOfBounds));
    let color = graph.pass("color").unwrap();
    assert!(color.presents);
    assert!(color.attachments[0].backbuffer);
    assert_eq!(color.attachments[0].store_op, StoreOp::Store);
    assert_eq!(color.attachments[0].final_layout, ImageLayout::PresentSrc);
    assert!(color.framebuffers.is_empty());
}

#[test]
fn rebuilding_resolves_the_same_passes() {
    let declaration = || {
        RenderGraph::build(
            names(&["offscreen", "color"]),
            vec![
                node("albedo", Format::R8G8B8A8Unorm, false, true),
                node("backbuffer_0", Format::B8G8R8A8Unorm, false, false),
            ],
            edges(&[("offscreen", "albedo"), ("color", "albedo"), ("color", "backbuffer_0")]),
        )
        .unwrap()
    };
    let mut first = declaration();
    first.insert_backbuffer_images(images(2, 10));
    let mut second = declaration();
    second.insert_backbuffer_images(images(3, 50));
    for name in ["offscreen", "color"] {
        assert!(first.pass(name).is_ok());
        assert!(second.pass(name).is_ok());
        assert_eq!(
            first.pass(name).unwrap().attachments,
            second.pass(name).unwrap().attachments
        );
        for index in 0..3 {
            let execution = second.execute_pass(name, index).unwrap();
            let framebuffer = &second.passes[execution.pass].framebuffers[execution.framebuffer];
            assert!(!framebuffer.images.is_empty());
        }
    }
    assert!(first.pass("shadow").is_err());
    assert!(second.pass("shadow").is_err());
    let color = second.pass("color").unwrap();
    assert_eq!(color.framebuffers.len(), 3);
    assert_eq!(
        color.framebuffers[1].images,
        vec![ImageSource::Owned(0), ImageSource::External(ImageHandle { raw: 51 })]
    );
    assert_eq!(first.pass("color").unwrap().framebuffers.len(), 2);
    assert_eq!(color.dependencies, vec![0]);
    assert!(second.pass("offscreen").unwrap().dependencies.is_empty());
    assert_eq!(second.backbuffer_images, images(3, 50));
}

#[test]
fn only_nodes_without_a_presentation_image_are_allocated() {
    let graph = RenderGraph::build(
        names(&["offscreen", "color"]),
        vec![
            node("albedo", Format::R8G8B8A8Unorm, false, true),
            node("backbuffer_0", Format::B8G8R8A8Unorm, false, false),
            node("depth", Format::D32Sfloat, false, false),
        ],
        edges(&[("offscreen", "albedo"), ("offscreen", "depth"), ("color", "backbuffer_0")]),
    )
    .unwrap();
    let requests = graph.image_requests();
    assert_eq!(requests.len(), 2);
    assert_eq!(requests[0].node, 0);
    assert_eq!(requests[0].info.usage.bits, 0x10 | 0x4);
    assert_eq!(requests[0].info.extent.width, 800);
    assert_eq!(requests[0].info.extent.depth, 1);
    assert_eq!(requests[0].info.mip_levels, 1);
    assert_eq!(requests[1].node, 2);
    assert_eq!(requests[1].info.usage.bits, 0x20);
    assert_eq!(requests[1].info.format, Format::D32Sfloat);
    assert!(window_graph().image_requests().is_empty());
}

#[test]
fn passes_wait_for_earlier_passes_on_their_nodes() {
    let graph = RenderGraph::build(
        names(&["shadow", "offscreen", "post", "color"]),
        vec![
            node("shadow_map", Format::D32Sfloat, true, true),
            node("albedo", Format::R8G8B8A8Unorm, false, true),
            node("backbuffer_0", Format::B8G8R8A8Unorm, false, false),
        ],
        edges(&[
            ("shadow", "shadow_map"),
            ("offscreen", "albedo"),
            ("post", "albedo"),
            ("post", "shadow_map"),
            ("color", "backbuffer_0"),
        ]),
    )
    .unwrap();
    assert!(graph.passes[0].dependencies.is_empty());
    assert!(graph.passes[1].dependencies.is_empty());
    assert_eq!(graph.passes[2].dependencies, vec![0, 1]);
    assert!(graph.passes[3].dependencies.is_empty());
    let shadow = graph.passes[0].attachments[0];
    assert_eq!(shadow.store_op, StoreOp::Store);
    assert_eq!(shadow.final_layout, ImageLayout::ShaderReadOnlyOptimal);
}

#[test]
fn tampered_graphs_are_told_apart() {
    let mut graph = window_graph();
    assert!(graph.is_well_formed());
    graph.insert_backbuffer_images(images(2, 7));
    assert!(graph.is_well_formed());
    let mut dangling = graph.clone();
    dangling.edges.push((0, 9));
    assert!(!dangling.is_well_formed());
    let mut silent = graph.clone();
    silent.passes[0].presents = false;
    assert!(!silent.is_well_formed());
    let mut short = graph.clone();
    short.passes[0].framebuffers.pop();
    assert!(!short.is_well_formed());
    let mut swapped = graph.clone();
    swapped.backbuffer_images[1] = ImageHandle { raw: 99 };
    assert!(!swapped.is_well_formed());
    let mut recoloured = graph.clone();
    recoloured.passes[0].attachments[0].clear_value.bits[2] = 0;
    assert!(!recoloured.is_well_formed());
    let mut waiting = graph;
    waiting.passes[0].dependencies.push(0);
    assert!(!waiting.is_well_formed());
}

#[test]
fn passes_without_presentation_run_on_their_only_framebuffer() {
    let mut graph = RenderGraph::build(
        names(&["offscreen", "color"]),
        vec![
            node("albedo", Format::R8G8B8A8Unorm, false, true),
            node("backbuffer_0", Format::B8G8R8A8Unorm, false, false),
        ],
        edges(&[("offscreen", "albedo"), ("color", "backbuffer_0")]),
    )
    .unwrap();
    graph.insert_backbuffer_images(images(2, 40));
    assert_eq!(graph.execute_pass("offscreen", 0).unwrap().framebuffer, 0);
    assert_eq!(graph.execute_pass("offscreen", 1).unwrap().framebuffer, 0);
    assert_eq!(graph.execute_pass("offscreen", 2), Err(Error::ImageIndexOutOfBounds));
    assert_eq!(graph.execute_pass("color", 1).unwrap().framebuffer, 1);
    assert_eq!(graph.execute_pass("color", 2), Err(Error::ImageIndexOutOfBounds));
    assert_eq!(graph.execute_pass("shadow", 0), Err(Error::UnknownPass));
    assert_eq!(graph.execute_pass("shadow", 9), Err(Error::UnknownPass));
}

#[test]
fn render_pass_descriptions_follow_the_roles() {
    let graph = RenderGraph::build(
        names(&["shadow", "offscreen"]),
        vec![
            node("depth", Format::D32Sfloat, true, false),
            node("albedo", Format::R8G8B8A8Unorm, false, true),
            node("normals", Format::R8G8B8A8Unorm, false, true),
        ],
        edges(&[
            ("shadow", "depth"),
            ("offscreen", "albedo"),
            ("offscreen", "depth"),
            ("offscreen", "normals"),
        ]),
    )
    .unwrap();
    let shadow = graph.passes[0].render_pass_description();
    assert_eq!(shadow.attachments, graph.passes[0].attachments);
    assert!(shadow.color_references.is_empty());
    assert_eq!(
        shadow.depth_reference,
        Some(AttachmentReference {
            attachment: 0,
            layout: ImageLayout::DepthStencilAttachmentOptimal
        })
    );
    assert!(shadow.dependencies.is_empty());
    let offscreen = graph.passes[1].render_pass_description();
    assert_eq!(
        offscreen.color_references,
        vec![
            AttachmentReference { attachment: 0, layout: ImageLayout::ColorAttachmentOptimal },
            AttachmentReference { attachment: 2, layout: ImageLayout::ColorAttachmentOptimal },
        ]
    );
    assert_eq!(offscreen.depth_reference.unwrap().attachment, 1);
    assert_eq!(offscreen.dependencies.len(), 1);
    assert_eq!(offscreen.dependencies[0].src_subpass, SubpassRef::External);
    assert_eq!(offscreen.dependencies[0].dst_subpass, SubpassRef::Index(0));
    assert_eq!(offscreen.dependencies[0].src_stage_mask.bits, 0x400);
    assert_eq!(offscreen.dependencies[0].dst_access_mask.bits, 0x100);
}

#[test]
fn attachment_views_pick_the_aspect_of_the_format() {
    let depth = attachment_view(ImageHandle { raw: 4 }, Format::D32Sfloat);
    assert_eq!(depth.subresource_range.aspect, ImageAspect::Depth);
    assert_eq!(depth.view_type, ImageViewType::Type2D);
    assert_eq!(depth.subresource_range.level_count, 1);
    assert_eq!(depth.subresource_range.layer_count, 1);
    let color = attachment_view(ImageHandle { raw: 5 }, Format::B8G8R8A8Unorm);
    assert_eq!(color.subresource_range.aspect, ImageAspect::Color);
    assert_eq!(color.image, ImageHandle { raw: 5 });
    assert_eq!(color.format, Format::B8G8R8A8Unorm);
}

#[test]
fn nodes_with_a_lookalike_name_are_owned() {
    let graph = RenderGraph::build(
        names(&["color"]),
        vec![node("backbuffer_x", Format::B8G8R8A8Unorm, false, false)],
        edges(&[("color", "backbuffer_x")]),
    )
    .unwrap();
    assert!(!graph.passes[0].presents);
    assert!(!graph.passes[0].attachments[0].backbuffer);
    assert_eq!(graph.passes[0].attachments[0].final_layout, ImageLayout::ColorAttachmentOptimal);
    assert_eq!(graph.image_requests().len(), 1);
}
