use vstd::prelude::*;
use vstd::string::*;
use crate::error::Error;
use crate::names::{
    backbuffer_name, find_name, is_backbuffer_name, spec_backbuffer_name, spec_declared,
    spec_is_backbuffer_name, spec_is_first, spec_views,
};
use crate::description::ImageCreateInfo;
use crate::image::{ImageViewCreateInfo, ImageViewType};
use crate::transition::{ImageAspect, ImageSubresourceRange};
use crate::types::{
    AccessFlags, Extent2D, Extent3D, Format, ImageHandle, ImageLayout, ImageUsageFlags,
    PipelineStageFlags, SampleCount, ACCESS_COLOR_ATTACHMENT_WRITE,
    STAGE_COLOR_ATTACHMENT_OUTPUT, USAGE_COLOR_ATTACHMENT, USAGE_DEPTH_STENCIL_ATTACHMENT,
    USAGE_SAMPLED,
};

verus! {

/// The value that an attachment is cleared to, as the four 32-bit words
/// that the GPU reads.
#[derive(Debug, Clone, Copy, PartialEq, Eq)]
pub struct ClearValue {
    pub bits: [u32; 4],
}

/// An image that the graph renders into, known by its name.
#[derive(Debug, Clone, PartialEq, Eq)]
pub struct ImageNode {
    pub name: String,
    pub extent: Extent2D,
    pub format: Format,
    pub clear_value: ClearValue,
    pub samples: SampleCount,
    /// Keep the contents after the pass.
    pub force_store: bool,
    /// Leave the image where shaders can sample it.
    pub force_shader_read: bool,
}

/// What an attachment is to its pass.
#[derive(Debug, Clone, Copy, PartialEq, Eq, Structural)]
pub enum AttachmentRole {
    Color,
    Depth,
}

/// What happens to the contents of an attachment when a pass begins.
#[derive(Debug, Clone, Copy, PartialEq, Eq, Structural)]
pub enum LoadOp {
    Load,
    Clear,
    DontCare,
}

/// What happens to the contents of an attachment when a pass ends.
#[derive(Debug, Clone, Copy, PartialEq, Eq, Structural)]
pub enum StoreOp {
    Store,
    DontCare,
}

/// One attachment of a render pass, derived from the image node behind
/// it.
#[derive(Debug, Clone, Copy, PartialEq, Eq)]
pub struct Attachment {
    /// The index of the node among the nodes of the graph.
    pub node: usize,
    pub role: AttachmentRole,
    pub format: Format,
    pub samples: SampleCount,
    pub clear_value: ClearValue,
    pub load_op: LoadOp,
    pub store_op: StoreOp,
    pub initial_layout: ImageLayout,
    pub final_layout: ImageLayout,
    /// Whether a presentation image stands in for the node.
    pub backbuffer: bool,
}

/// Where the image behind an attachment comes from.
#[derive(Debug, Clone, Copy, PartialEq, Eq, Structural)]
pub enum ImageSource {
    /// The image that the graph's owner allocated for the node of this
    /// index.
    Owned(usize),
    /// An image supplied from outside, such as one of the presentation
    /// surface.
    External(ImageHandle),
}

/// The images that one execution of a pass renders into, one for each
/// attachment.
#[derive(Debug, Clone, PartialEq, Eq)]
pub struct Framebuffer {
    pub images: Vec<ImageSource>,
}

/// A named render stage: its attachments in the order of declaration,
/// the extent it renders at, and a framebuffer for each set of images
/// it can run on.
#[derive(Debug, Clone, PartialEq, Eq)]
pub struct Pass {
    pub name: String,
    pub attachments: Vec<Attachment>,
    pub extent: Extent2D,
    /// Whether one of the attachments is a presentation image.
    pub presents: bool,
    /// The earlier passes that this one has to wait for, in ascending
    /// order: those that share an attachment with it.
    pub dependencies: Vec<usize>,
    pub framebuffers: Vec<Framebuffer>,
}

/// What the caller binds to run a pass: which pass, which of its
/// framebuffers, and the viewport and scissor extent.
#[derive(Debug, Clone, Copy, PartialEq, Eq)]
pub struct PassExecution {
    pub pass: usize,
    pub framebuffer: usize,
    pub extent: Extent2D,
}

/// The passes of a renderer and the images between them.
#[derive(Debug, Clone, PartialEq, Eq)]
pub struct RenderGraph {
    pub nodes: Vec<ImageNode>,
    /// For every declared edge, the index of its pass and of its node.
    pub edges: Vec<(usize, usize)>,
    pub passes: Vec<Pass>,
    pub backbuffer_images: Vec<ImageHandle>,
}

/// The image that the owner of the graph has to allocate for a node.
#[derive(Debug, Clone, Copy, PartialEq, Eq)]
pub struct NodeImageRequest {
    /// The index of the node among the nodes of the graph.
    pub node: usize,
    pub info: ImageCreateInfo,
}

/// How the image of a node is used: as the attachment that its format
/// calls for, and by shaders too if the node is to be read by them.
pub open spec fn spec_node_usage(node: ImageNode) -> u32 {
    if node.format.spec_is_depth() {
        if node.force_shader_read {
            USAGE_DEPTH_STENCIL_ATTACHMENT | USAGE_SAMPLED
        } else {
            USAGE_DEPTH_STENCIL_ATTACHMENT
        }
    } else {
        if node.force_shader_read {
            USAGE_COLOR_ATTACHMENT | USAGE_SAMPLED
        } else {
            USAGE_COLOR_ATTACHMENT
        }
    }
}

/// The image behind a node: of its extent, format and sample count, with
/// one level and one layer.
pub open spec fn spec_node_image(node: ImageNode) -> ImageCreateInfo {
    ImageCreateInfo {
        extent: Extent3D { width: node.extent.width, height: node.extent.height, depth: 1 },
        mip_levels: 1,
        array_layers: 1,
        format: node.format,
        initial_layout: ImageLayout::Undefined,
        usage: ImageUsageFlags { bits: spec_node_usage(node) },
        samples: node.samples,
        cube_compatible: false,
    }
}

/// The images to allocate for a graph: one for every node that no
/// presentation image stands in for, in the order of the nodes.
pub open spec fn spec_image_requests(nodes: Seq<ImageNode>) -> Seq<NodeImageRequest>
    decreases nodes.len(),
{
    if nodes.len() == 0 {
        Seq::empty()
    } else {
        let before = spec_image_requests(nodes.drop_last());
        if spec_is_backbuffer_name(nodes.last().name@) {
            before
        } else {
            before.push(
                NodeImageRequest {
                    node: (nodes.len() - 1) as usize,
                    info: spec_node_image(nodes.last()),
                },
            )
        }
    }
}

/// The attachment that a node makes. It is cleared on load. It is stored
/// only if the node asks for it or is presented. It ends where shaders
/// read it if the node asks for that; otherwise where it is presented,
/// for a presentation image, and where it is rendered to, for any other.
pub open spec fn spec_attachment(node: ImageNode, index: usize) -> Attachment {
    let backbuffer = spec_is_backbuffer_name(node.name@);
    Attachment {
        node: index,
        role: if node.format.spec_is_depth() {
            AttachmentRole::Depth
        } else {
            AttachmentRole::Color
        },
        format: node.format,
        samples: node.samples,
        clear_value: node.clear_value,
        load_op: LoadOp::Clear,
        store_op: if node.force_store || backbuffer {
            StoreOp::Store
        } else {
            StoreOp::DontCare
        },
        initial_layout: ImageLayout::Undefined,
        final_layout: if node.force_shader_read {
            ImageLayout::ShaderReadOnlyOptimal
        } else if backbuffer {
            ImageLayout::PresentSrc
        } else if node.format.spec_is_depth() {
            ImageLayout::DepthStencilAttachmentOptimal
        } else {
            ImageLayout::ColorAttachmentOptimal
        },
        backbuffer,
    }
}

/// The attachments of pass `pass`: one for each edge that names it, in
/// the order of the edges.
pub open spec fn spec_attachments(
    nodes: Seq<ImageNode>,
    edges: Seq<(usize, usize)>,
    pass: int,
) -> Seq<Attachment>
    decreases edges.len(),
{
    if edges.len() == 0 {
        Seq::empty()
    } else {
        let before = spec_attachments(nodes, edges.drop_last(), pass);
        let edge = edges.last();
        if edge.0 == pass {
            before.push(spec_attachment(nodes[edge.1 as int], edge.1))
        } else {
            before
        }
    }
}

/// Whether one of the attachments is a presentation image.
pub open spec fn spec_presents(attachments: Seq<Attachment>) -> bool {
    exists|at: int| 0 <= at < attachments.len() && (#[trigger] attachments[at]).backbuffer
}

/// The images of a framebuffer over `attachments`: `image` where a
/// presentation image stands in, the node's own image elsewhere.
pub open spec fn spec_framebuffer(attachments: Seq<Attachment>, image: ImageHandle) -> Seq<
    ImageSource,
> {
    Seq::new(
        attachments.len(),
        |at: int|
            if attachments[at].backbuffer {
                ImageSource::External(image)
            } else {
                ImageSource::Owned(attachments[at].node)
            },
    )
}

/// Whether the passes `first` and `second` have a node in common.
pub open spec fn spec_shares_node(edges: Seq<(usize, usize)>, first: int, second: int) -> bool {
    exists|a: int, b: int|
        0 <= a < edges.len() && 0 <= b < edges.len() && (#[trigger] edges[a]).0 == first && (
        #[trigger] edges[b]).0 == second && edges[a].1 == edges[b].1
}

/// The passes before `bound` that share a node with `pass`, in ascending
/// order.
pub open spec fn spec_dependencies(edges: Seq<(usize, usize)>, pass: int, bound: nat) -> Seq<
    usize,
>
    decreases bound,
{
    if bound == 0 {
        Seq::empty()
    } else {
        let before = spec_dependencies(edges, pass, (bound - 1) as nat);
        if spec_shares_node(edges, pass, bound - 1) {
            before.push((bound - 1) as usize)
        } else {
            before
        }
    }
}

/// The handle that stands where no image is.
pub open spec fn spec_null_image() -> ImageHandle {
    ImageHandle { raw: 0 }
}

/// Whether `pass` is what pass number `index` of a graph with these
/// nodes, edges and presentation images has to be. A pass that presents
/// has one framebuffer for each presentation image; any other has one
/// framebuffer. The extent is that of the first attachment.
pub open spec fn spec_pass_matches(
    pass: Pass,
    nodes: Seq<ImageNode>,
    edges: Seq<(usize, usize)>,
    index: int,
    images: Seq<ImageHandle>,
) -> bool {
    let attachments = spec_attachments(nodes, edges, index);
    &&& pass.attachments@ == attachments
    &&& attachments.len() > 0
    &&& 0 <= attachments[0].node < nodes.len()
    &&& pass.extent == nodes[attachments[0].node as int].extent
    &&& pass.presents == spec_presents(attachments)
    &&& pass.dependencies@ == spec_dependencies(edges, index, index as nat)
    &&& pass.framebuffers@.len() == if pass.presents {
        images.len()
    } else {
        1
    }
    &&& forall|at: int|
        0 <= at < pass.framebuffers@.len() ==> (#[trigger] pass.framebuffers@[at]).images@
            == spec_framebuffer(
            attachments,
            if pass.presents {
                images[at]
            } else {
                spec_null_image()
            },
        )
}

/// The names of a list of nodes.
pub open spec fn spec_node_names(nodes: Seq<ImageNode>) -> Seq<Seq<char>> {
    Seq::new(nodes.len(), |at: int| nodes[at].name@)
}

/// The names of a list of passes.
pub open spec fn spec_pass_names(passes: Seq<Pass>) -> Seq<Seq<char>> {
    Seq::new(passes.len(), |at: int| passes[at].name@)
}

/// Every edge names a declared pass and a declared node.
pub open spec fn spec_edges_declared(
    pass_names: Seq<Seq<char>>,
    node_names: Seq<Seq<char>>,
    edges: Seq<(String, String)>,
) -> bool {
    forall|at: int|
        0 <= at < edges.len() ==> spec_declared(pass_names, (#[trigger] edges[at]).0@)
            && spec_declared(node_names, edges[at].1@)
}

/// Some edge names pass number `pass`. Where several passes share a
/// name, edges name the first of them.
pub open spec fn spec_pass_has_edge(
    pass_names: Seq<Seq<char>>,
    edges: Seq<(String, String)>,
    pass: int,
) -> bool {
    exists|at: int|
        0 <= at < edges.len() && spec_is_first(pass_names, (#[trigger] edges[at]).0@, pass)
}

/// A declaration that a graph can be built from: no edge dangles, and
/// every pass has an attachment.
pub open spec fn spec_valid_declaration(
    pass_names: Seq<Seq<char>>,
    node_names: Seq<Seq<char>>,
    edges: Seq<(String, String)>,
) -> bool {
    &&& spec_edges_declared(pass_names, node_names, edges)
    &&& forall|pass: int|
        0 <= pass < pass_names.len() ==> #[trigger] spec_pass_has_edge(pass_names, edges, pass)
}

/// `resolved` holds, for every edge, the first pass and the first node
/// of the names that the edge gives.
pub open spec fn spec_edges_resolved(
    pass_names: Seq<Seq<char>>,
    node_names: Seq<Seq<char>>,
    edges: Seq<(String, String)>,
    resolved: Seq<(usize, usize)>,
) -> bool {
    &&& resolved.len() == edges.len()
    &&& forall|at: int|
        0 <= at < edges.len() ==> spec_is_first(
            pass_names,
            (#[trigger] edges[at]).0@,
            resolved[at].0 as int,
        ) && spec_is_first(node_names, edges[at].1@, resolved[at].1 as int)
}

/// A pass is without attachments exactly if no edge leads to it, and
/// every attachment stands for the node of some edge.
pub proof fn lemma_attachments_of_edges(
    nodes: Seq<ImageNode>,
    edges: Seq<(usize, usize)>,
    pass: int,
)
    ensures
        spec_attachments(nodes, edges, pass).len() == 0 <==> forall|at: int|
            0 <= at < edges.len() ==> (#[trigger] edges[at]).0 != pass,
        forall|at: int|
            0 <= at < spec_attachments(nodes, edges, pass).len() ==> exists|edge: int|
                0 <= edge < edges.len() && (#[trigger] edges[edge]).1 == (
                #[trigger] spec_attachments(nodes, edges, pass)[at]).node,
    decreases edges.len(),
{
    if edges.len() > 0 {
        let shorter = edges.drop_last();
        lemma_attachments_of_edges(nodes, shorter, pass);
        assert(forall|at: int| 0 <= at < shorter.len() ==> shorter[at] == edges[at]);
        let attachments = spec_attachments(nodes, edges, pass);
        let before = spec_attachments(nodes, shorter, pass);
        if edges.last().0 == pass {
            assert(edges[edges.len() - 1].0 == pass);
        }
        assert forall|at: int| 0 <= at < attachments.len() implies exists|edge: int|
            0 <= edge < edges.len() && (#[trigger] edges[edge]).1 == (
            #[trigger] attachments[at]).node by {
            if at < before.len() {
                let edge = choose|edge: int|
                    0 <= edge < shorter.len() && (#[trigger] shorter[edge]).1 == before[at].node;
                assert(edges[edge].1 == attachments[at].node);
            } else {
                assert(edges[edges.len() - 1].1 == attachments[at].node);
            }
        }
    }
}

/// Which attachment a subpass uses, and in which layout.
#[derive(Debug, Clone, Copy, PartialEq, Eq, Structural)]
pub struct AttachmentReference {
    /// The index of the attachment among the attachments of the pass.
    pub attachment: usize,
    pub layout: ImageLayout,
}

/// One side of a subpass dependency.
#[derive(Debug, Clone, Copy, PartialEq, Eq, Structural)]
pub enum SubpassRef {
    /// Whatever was submitted before the render pass, or is after it.
    External,
    Index(u32),
}

/// What a subpass has to wait for, and with which of its stages and
/// accesses.
#[derive(Debug, Clone, Copy, PartialEq, Eq, Structural)]
pub struct SubpassDependency {
    pub src_subpass: SubpassRef,
    pub dst_subpass: SubpassRef,
    pub src_stage_mask: PipelineStageFlags,
    pub dst_stage_mask: PipelineStageFlags,
    pub src_access_mask: AccessFlags,
    pub dst_access_mask: AccessFlags,
}

/// What it takes to create the render pass of a pass: its attachments,
/// and a single subpass that renders into them.
#[derive(Debug, Clone, PartialEq, Eq)]
pub struct RenderPassDescription {
    pub attachments: Vec<Attachment>,
    pub color_references: Vec<AttachmentReference>,
    pub depth_reference: Option<AttachmentReference>,
    pub dependencies: Vec<SubpassDependency>,
}

/// The colour attachments of the subpass: every attachment of the colour
/// role, in the order of the attachments, each where it is rendered to.
pub open spec fn spec_color_references(attachments: Seq<Attachment>) -> Seq<AttachmentReference>
    decreases attachments.len(),
{
    if attachments.len() == 0 {
        Seq::empty()
    } else {
        let before = spec_color_references(attachments.drop_last());
        if attachments.last().role == AttachmentRole::Color {
            before.push(
                AttachmentReference {
                    attachment: (attachments.len() - 1) as usize,
                    layout: ImageLayout::ColorAttachmentOptimal,
                },
            )
        } else {
            before
        }
    }
}

/// The depth attachment of the subpass: the last attachment of the depth
/// role, if there is one.
pub open spec fn spec_depth_reference(attachments: Seq<Attachment>) -> Option<
    AttachmentReference,
>
    decreases attachments.len(),
{
    if attachments.len() == 0 {
        None
    } else if attachments.last().role == AttachmentRole::Depth {
        Some(
            AttachmentReference {
                attachment: (attachments.len() - 1) as usize,
                layout: ImageLayout::DepthStencilAttachmentOptimal,
            },
        )
    } else {
        spec_depth_reference(attachments.drop_last())
    }
}

/// The wait of the subpass for what earlier passes wrote to its
/// attachments.
pub open spec fn spec_external_dependency() -> SubpassDependency {
    SubpassDependency {
        src_subpass: SubpassRef::External,
        dst_subpass: SubpassRef::Index(0),
        src_stage_mask: PipelineStageFlags { bits: STAGE_COLOR_ATTACHMENT_OUTPUT },
        dst_stage_mask: PipelineStageFlags { bits: STAGE_COLOR_ATTACHMENT_OUTPUT },
        src_access_mask: AccessFlags { bits: ACCESS_COLOR_ATTACHMENT_WRITE },
        dst_access_mask: AccessFlags { bits: ACCESS_COLOR_ATTACHMENT_WRITE },
    }
}

/// The subpass dependencies of a pass: one wait if the pass depends on
/// an earlier pass, none otherwise.
pub open spec fn spec_subpass_dependencies(dependencies: Seq<usize>) -> Seq<SubpassDependency> {
    if dependencies.len() > 0 {
        seq![spec_external_dependency()]
    } else {
        Seq::empty()
    }
}

/// The view through which a pass renders into `image`: two-dimensional,
/// of one level and one layer, on the depth aspect of a depth format and
/// on the colour aspect of any other.
pub open spec fn spec_attachment_view(image: ImageHandle, format: Format) -> ImageViewCreateInfo {
    ImageViewCreateInfo {
        image,
        view_type: ImageViewType::Type2D,
        format,
        subresource_range: ImageSubresourceRange {
            aspect: if format.spec_is_depth() {
                ImageAspect::Depth
            } else {
                ImageAspect::Color
            },
            base_mip_level: 0,
            level_count: 1,
            base_array_layer: 0,
            layer_count: 1,
        },
    }
}

/// The view through which a pass renders into `image`.
pub fn attachment_view(image: ImageHandle, format: Format) -> (info: ImageViewCreateInfo)
    ensures
        info == spec_attachment_view(image, format),
{
    ImageViewCreateInfo {
        image,
        view_type: ImageViewType::Type2D,
        format,
        subresource_range: ImageSubresourceRange {
            aspect: if format.is_depth() {
                ImageAspect::Depth
            } else {
                ImageAspect::Color
            },
            base_mip_level: 0,
            level_count: 1,
            base_array_layer: 0,
            layer_count: 1,
        },
    }
}

impl Pass {
    /// What it takes to create the render pass of this pass.
    pub fn render_pass_description(&self) -> (description: RenderPassDescription)
        ensures
            description.attachments@ == self.attachments@,
            description.color_references@ == spec_color_references(self.attachments@),
            description.depth_reference == spec_depth_reference(self.attachments@),
            description.dependencies@ == spec_subpass_dependencies(self.dependencies@),
    {
        let mut attachments: Vec<Attachment> = Vec::new();
        let mut color_references: Vec<AttachmentReference> = Vec::new();
        let mut depth_reference: Option<AttachmentReference> = None;
        let mut at: usize = 0;
        while at < self.attachments.len()
            invariant
                at <= self.attachments@.len(),
                attachments@ == self.attachments@.subrange(0, at as int),
                color_references@ == spec_color_references(
                    self.attachments@.subrange(0, at as int),
                ),
                depth_reference == spec_depth_reference(self.attachments@.subrange(0, at as int)),
            decreases self.attachments@.len() - at,
        {
            let attachment = self.attachments[at];
            proof {
                assert(self.attachments@.subrange(0, at + 1).drop_last()
                    =~= self.attachments@.subrange(0, at as int));
                assert(self.attachments@.subrange(0, at + 1).last() == attachment);
            }
            attachments.push(attachment);
            match attachment.role {
                AttachmentRole::Color => {
                    color_references.push(
                        AttachmentReference {
                            attachment: at,
                            layout: ImageLayout::ColorAttachmentOptimal,
                        },
                    );
                },
                AttachmentRole::Depth => {
                    depth_reference = Some(
                        AttachmentReference {
                            attachment: at,
                            layout: ImageLayout::DepthStencilAttachmentOptimal,
                        },
                    );
                },
            }
            at = at + 1;
            assert(attachments@ =~= self.attachments@.subrange(0, at as int));
        }
        assert(self.attachments@.subrange(0, at as int) =~= self.attachments@);
        let mut dependencies: Vec<SubpassDependency> = Vec::new();
        if self.dependencies.len() > 0 {
            dependencies.push(
                SubpassDependency {
                    src_subpass: SubpassRef::External,
                    dst_subpass: SubpassRef::Index(0),
                    src_stage_mask: PipelineStageFlags { bits: STAGE_COLOR_ATTACHMENT_OUTPUT },
                    dst_stage_mask: PipelineStageFlags { bits: STAGE_COLOR_ATTACHMENT_OUTPUT },
                    src_access_mask: AccessFlags { bits: ACCESS_COLOR_ATTACHMENT_WRITE },
                    dst_access_mask: AccessFlags { bits: ACCESS_COLOR_ATTACHMENT_WRITE },
                },
            );
        }
        assert(dependencies@ =~= spec_subpass_dependencies(self.dependencies@));
        RenderPassDescription { attachments, color_references, depth_reference, dependencies }
    }
}

fn find_node(nodes: &Vec<ImageNode>, name: &str) -> (found: Option<usize>)
    ensures
        match found {
            Some(index) => spec_is_first(spec_node_names(nodes@), name@, index as int),
            None => !spec_declared(spec_node_names(nodes@), name@),
        },
{
    let wanted = String::from_str(name);
    let mut at: usize = 0;
    while at < nodes.len()
        invariant
            at <= nodes@.len(),
            wanted@ == name@,
            forall|before: int|
                0 <= before < at ==> #[trigger] spec_node_names(nodes@)[before] != name@,
        decreases nodes@.len() - at,
    {
        if nodes[at].name == wanted {
            return Some(at);
        }
        at = at + 1;
    }
    None
}

fn find_pass(passes: &Vec<Pass>, name: &str) -> (found: Option<usize>)
    ensures
        match found {
            Some(index) => spec_is_first(spec_pass_names(passes@), name@, index as int),
            None => !spec_declared(spec_pass_names(passes@), name@),
        },
{
    let wanted = String::from_str(name);
    let mut at: usize = 0;
    while at < passes.len()
        invariant
            at <= passes@.len(),
            wanted@ == name@,
            forall|before: int|
                0 <= before < at ==> #[trigger] spec_pass_names(passes@)[before] != name@,
        decreases passes@.len() - at,
    {
        if passes[at].name == wanted {
            return Some(at);
        }
        at = at + 1;
    }
    None
}

fn attachment_of(node: &ImageNode, index: usize) -> (attachment: Attachment)
    ensures
        attachment == spec_attachment(*node, index),
{
    let backbuffer = is_backbuffer_name(node.name.as_str());
    let depth = node.format.is_depth();
    Attachment {
        node: index,
        role: if depth {
            AttachmentRole::Depth
        } else {
            AttachmentRole::Color
        },
        format: node.format,
        samples: node.samples,
        clear_value: node.clear_value,
        load_op: LoadOp::Clear,
        store_op: if node.force_store || backbuffer {
            StoreOp::Store
        } else {
            StoreOp::DontCare
        },
        initial_layout: ImageLayout::Undefined,
        final_layout: if node.force_shader_read {
            ImageLayout::ShaderReadOnlyOptimal
        } else if backbuffer {
            ImageLayout::PresentSrc
        } else if depth {
            ImageLayout::DepthStencilAttachmentOptimal
        } else {
            ImageLayout::ColorAttachmentOptimal
        },
        backbuffer,
    }
}

fn attachments_of(nodes: &Vec<ImageNode>, edges: &Vec<(usize, usize)>, pass: usize) -> (attachments:
    Vec<Attachment>)
    requires
        forall|at: int| 0 <= at < edges@.len() ==> (#[trigger] edges@[at]).1 < nodes@.len(),
    ensures
        attachments@ == spec_attachments(nodes@, edges@, pass as int),
        forall|at: int|
            0 <= at < attachments@.len() ==> (#[trigger] attachments@[at]).node < nodes@.len(),
{
    let mut attachments: Vec<Attachment> = Vec::new();
    let mut at: usize = 0;
    while at < edges.len()
        invariant
            at <= edges@.len(),
            forall|edge: int| 0 <= edge < edges@.len() ==> (#[trigger] edges@[edge]).1 < nodes@.len(),
            attachments@ == spec_attachments(nodes@, edges@.subrange(0, at as int), pass as int),
            forall|index: int|
                0 <= index < attachments@.len() ==> (#[trigger] attachments@[index]).node
                    < nodes@.len(),
        decreases edges@.len() - at,
    {
        let edge = edges[at];
        proof {
            assert(edges@.subrange(0, at + 1).drop_last() =~= edges@.subrange(0, at as int));
            assert(edges@.subrange(0, at + 1).last() == edges@[at as int]);
        }
        if edge.0 == pass {
            attachments.push(attachment_of(&nodes[edge.1], edge.1));
        }
        at = at + 1;
    }
    assert(edges@.subrange(0, at as int) =~= edges@);
    attachments
}

fn presents(attachments: &Vec<Attachment>) -> (presenting: bool)
    ensures
        presenting == spec_presents(attachments@),
{
    let mut at: usize = 0;
    while at < attachments.len()
        invariant
            at <= attachments@.len(),
            forall|before: int| 0 <= before < at ==> !(#[trigger] attachments@[before]).backbuffer,
        decreases attachments@.len() - at,
    {
        if attachments[at].backbuffer {
            return true;
        }
        at = at + 1;
    }
    false
}

fn has_edge(edges: &Vec<(usize, usize)>, pass: usize, node: usize) -> (found: bool)
    ensures
        found == exists|at: int|
            0 <= at < edges@.len() && #[trigger] edges@[at] == (pass, node),
{
    let mut at: usize = 0;
    while at < edges.len()
        invariant
            at <= edges@.len(),
            forall|before: int| 0 <= before < at ==> #[trigger] edges@[before] != (pass, node),
        decreases edges@.len() - at,
    {
        let edge = edges[at];
        if edge.0 == pass && edge.1 == node {
            return true;
        }
        at = at + 1;
    }
    false
}

fn shares_node(edges: &Vec<(usize, usize)>, first: usize, second: usize) -> (shared: bool)
    ensures
        shared == spec_shares_node(edges@, first as int, second as int),
{
    let mut at: usize = 0;
    while at < edges.len()
        invariant
            at <= edges@.len(),
            forall|a: int, b: int|
                0 <= a < at && 0 <= b < edges@.len() ==> !((#[trigger] edges@[a]).0 == first && (
                #[trigger] edges@[b]).0 == second && edges@[a].1 == edges@[b].1),
        decreases edges@.len() - at,
    {
        let edge = edges[at];
        if edge.0 == first {
            if has_edge(edges, second, edge.1) {
                proof {
                    let other = choose|other: int|
                        0 <= other < edges@.len() && #[trigger] edges@[other] == (second, edge.1);
                    assert(edges@[at as int].0 == first && edges@[other].0 == second
                        && edges@[at as int].1 == edges@[other].1);
                }
                return true;
            }
            assert forall|b: int| 0 <= b < edges@.len() implies !((#[trigger] edges@[b]).0
                == second && edges@[at as int].1 == edges@[b].1) by {
                if edges@[b].0 == second && edge.1 == edges@[b].1 {
                    assert(edges@[b] == (second, edge.1));
                }
            }
        }
        at = at + 1;
    }
    false
}

fn dependencies_of(edges: &Vec<(usize, usize)>, pass: usize) -> (dependencies: Vec<usize>)
    ensures
        dependencies@ == spec_dependencies(edges@, pass as int, pass as nat),
{
    let mut dependencies: Vec<usize> = Vec::new();
    let mut earlier: usize = 0;
    while earlier < pass
        invariant
            earlier <= pass,
            dependencies@ == spec_dependencies(edges@, pass as int, earlier as nat),
        decreases pass - earlier,
    {
        if shares_node(edges, pass, earlier) {
            dependencies.push(earlier);
        }
        earlier = earlier + 1;
    }
    dependencies
}

fn framebuffer_of(attachments: &Vec<Attachment>, image: ImageHandle) -> (framebuffer: Framebuffer)
    ensures
        framebuffer.images@ == spec_framebuffer(attachments@, image),
{
    let mut images: Vec<ImageSource> = Vec::new();
    let mut at: usize = 0;
    while at < attachments.len()
        invariant
            at <= attachments@.len(),
            images@ == spec_framebuffer(attachments@.subrange(0, at as int), image),
        decreases attachments@.len() - at,
    {
        let attachment = attachments[at];
        if attachment.backbuffer {
            images.push(ImageSource::External(image));
        } else {
            images.push(ImageSource::Owned(attachment.node));
        }
        at = at + 1;
        assert(images@ =~= spec_framebuffer(attachments@.subrange(0, at as int), image));
    }
    assert(attachments@.subrange(0, at as int) =~= attachments@);
    Framebuffer { images }
}

fn same_attachment(first: &Attachment, second: &Attachment) -> (same: bool)
    ensures
        same == (*first == *second),
{
    let same = first.node == second.node && first.role == second.role && first.format
        == second.format && first.samples == second.samples && first.clear_value.bits[0]
        == second.clear_value.bits[0] && first.clear_value.bits[1] == second.clear_value.bits[1]
        && first.clear_value.bits[2] == second.clear_value.bits[2] && first.clear_value.bits[3]
        == second.clear_value.bits[3] && first.load_op == second.load_op && first.store_op
        == second.store_op && first.initial_layout == second.initial_layout && first.final_layout
        == second.final_layout && first.backbuffer == second.backbuffer;
    proof {
        if same {
            assert(first.clear_value.bits =~= second.clear_value.bits);
        }
    }
    same
}

fn same_attachments(first: &Vec<Attachment>, second: &Vec<Attachment>) -> (same: bool)
    ensures
        same == (first@ == second@),
{
    if first.len() != second.len() {
        return false;
    }
    let mut at: usize = 0;
    while at < first.len()
        invariant
            at <= first@.len(),
            first@.len() == second@.len(),
            forall|before: int| 0 <= before < at ==> first@[before] == second@[before],
        decreases first@.len() - at,
    {
        if !same_attachment(&first[at], &second[at]) {
            return false;
        }
        at = at + 1;
    }
    assert(first@ =~= second@);
    true
}

fn same_indices(first: &Vec<usize>, second: &Vec<usize>) -> (same: bool)
    ensures
        same == (first@ == second@),
{
    if first.len() != second.len() {
        return false;
    }
    let mut at: usize = 0;
    while at < first.len()
        invariant
            at <= first@.len(),
            first@.len() == second@.len(),
            forall|before: int| 0 <= before < at ==> first@[before] == second@[before],
        decreases first@.len() - at,
    {
        if first[at] != second[at] {
            return false;
        }
        at = at + 1;
    }
    assert(first@ =~= second@);
    true
}

fn same_sources(first: &Vec<ImageSource>, second: &Vec<ImageSource>) -> (same: bool)
    ensures
        same == (first@ == second@),
{
    if first.len() != second.len() {
        return false;
    }
    let mut at: usize = 0;
    while at < first.len()
        invariant
            at <= first@.len(),
            first@.len() == second@.len(),
            forall|before: int| 0 <= before < at ==> first@[before] == second@[before],
        decreases first@.len() - at,
    {
        if first[at] != second[at] {
            return false;
        }
        at = at + 1;
    }
    assert(first@ =~= second@);
    true
}

/// Whether two lists of framebuffers hold the same images.
pub open spec fn spec_same_framebuffers(first: Seq<Framebuffer>, second: Seq<Framebuffer>) -> bool {
    &&& first.len() == second.len()
    &&& forall|at: int| 0 <= at < first.len() ==> (#[trigger] first[at]).images@ == second[at].images@
}

fn same_framebuffers(first: &Vec<Framebuffer>, second: &Vec<Framebuffer>) -> (same: bool)
    ensures
        same == spec_same_framebuffers(first@, second@),
{
    if first.len() != second.len() {
        return false;
    }
    let mut at: usize = 0;
    while at < first.len()
        invariant
            at <= first@.len(),
            first@.len() == second@.len(),
            forall|before: int|
                0 <= before < at ==> (#[trigger] first@[before]).images@ == second@[before].images@,
        decreases first@.len() - at,
    {
        if !same_sources(&first[at].images, &second[at].images) {
            return false;
        }
        at = at + 1;
    }
    true
}

fn assemble_pass(
    name: String,
    nodes: &Vec<ImageNode>,
    edges: &Vec<(usize, usize)>,
    index: usize,
    images: &Vec<ImageHandle>,
) -> (outcome: Option<Pass>)
    requires
        forall|at: int| 0 <= at < edges@.len() ==> (#[trigger] edges@[at]).1 < nodes@.len(),
    ensures
        match outcome {
            Some(pass) => pass.name == name && spec_pass_matches(
                pass,
                nodes@,
                edges@,
                index as int,
                images@,
            ),
            None => spec_attachments(nodes@, edges@, index as int).len() == 0,
        },
{
    let attachments = attachments_of(nodes, edges, index);
    if attachments.len() == 0 {
        return None;
    }
    let extent = nodes[attachments[0].node].extent;
    let presenting = presents(&attachments);
    let dependencies = dependencies_of(edges, index);
    let mut framebuffers: Vec<Framebuffer> = Vec::new();
    if presenting {
        let mut at: usize = 0;
        while at < images.len()
            invariant
                at <= images@.len(),
                framebuffers@.len() == at,
                forall|before: int|
                    0 <= before < at ==> (#[trigger] framebuffers@[before]).images@
                        == spec_framebuffer(attachments@, images@[before]),
            decreases images@.len() - at,
        {
            framebuffers.push(framebuffer_of(&attachments, images[at]));
            at = at + 1;
        }
    } else {
        framebuffers.push(framebuffer_of(&attachments, ImageHandle { raw: 0 }));
    }
    Some(Pass { name, attachments, extent, presents: presenting, dependencies, framebuffers })
}

impl RenderGraph {
    /// What holds of every graph that `build` made, whatever images were
    /// supplied since: edges lead to passes and nodes that exist, and
    /// every pass is the one that nodes, edges and presentation images
    /// call for.
    pub open spec fn spec_well_formed(self) -> bool {
        &&& forall|at: int|
            0 <= at < self.edges@.len() ==> (#[trigger] self.edges@[at]).0 < self.passes@.len()
                && self.edges@[at].1 < self.nodes@.len()
        &&& forall|index: int|
            0 <= index < self.passes@.len() ==> spec_pass_matches(
                #[trigger] self.passes@[index],
                self.nodes@,
                self.edges@,
                index,
                self.backbuffer_images@,
            )
    }

    /// Whether this graph was built from the given declaration.
    pub open spec fn spec_built_from(
        self,
        pass_names: Seq<String>,
        nodes: Seq<ImageNode>,
        edges: Seq<(String, String)>,
    ) -> bool {
        &&& self.spec_well_formed()
        &&& self.nodes@ == nodes
        &&& spec_pass_names(self.passes@) == spec_views(pass_names)
        &&& spec_edges_resolved(
            spec_views(pass_names),
            spec_node_names(nodes),
            edges,
            self.edges@,
        )
    }

    /// Whether a lookup of `name` finds a pass.
    pub open spec fn spec_resolves(self, name: Seq<char>) -> bool {
        spec_declared(spec_pass_names(self.passes@), name)
    }

    /// The name to give the node that presentation image `index` stands
    /// in for.
    pub fn backbuffer_name(index: usize) -> (name: String)
        ensures
            name@ == spec_backbuffer_name(index as nat),
            spec_is_backbuffer_name(name@),
    {
        backbuffer_name(index)
    }

    /// Builds the graph of a declaration: resolves every edge to its
    /// pass and its node, and derives each pass from the nodes that its
    /// edges name. A declaration with an edge that names an undeclared
    /// pass or node, or with a pass that no edge names, is refused.
    pub fn build(pass_names: Vec<String>, nodes: Vec<ImageNode>, edges: Vec<(String, String)>) -> (outcome:
        Result<RenderGraph, Error>)
        ensures
            outcome is Ok <==> spec_valid_declaration(
                spec_views(pass_names@),
                spec_node_names(nodes@),
                edges@,
            ),
            outcome is Err ==> outcome->Err_0 == Error::GraphValidation,
            outcome is Ok ==> outcome->Ok_0.spec_built_from(pass_names@, nodes@, edges@)
                && outcome->Ok_0.backbuffer_images@.len() == 0,
    {
        let ghost pass_views = spec_views(pass_names@);
        let ghost node_views = spec_node_names(nodes@);
        let mut resolved: Vec<(usize, usize)> = Vec::new();
        let mut at: usize = 0;
        while at < edges.len()
            invariant
                at <= edges@.len(),
                pass_views == spec_views(pass_names@),
                node_views == spec_node_names(nodes@),
                resolved@.len() == at,
                forall|before: int|
                    0 <= before < at ==> spec_is_first(
                        pass_views,
                        (#[trigger] edges@[before]).0@,
                        resolved@[before].0 as int,
                    ) && spec_is_first(node_views, edges@[before].1@, resolved@[before].1 as int),
            decreases edges@.len() - at,
        {
            let pass = match find_name(&pass_names, edges[at].0.as_str()) {
                Some(pass) => pass,
                None => {
                    assert(!spec_declared(pass_views, edges@[at as int].0@));
                    return Err(Error::GraphValidation);
                },
            };
            let node = match find_node(&nodes, edges[at].1.as_str()) {
                Some(node) => node,
                None => {
                    assert(!spec_declared(node_views, edges@[at as int].1@));
                    return Err(Error::GraphValidation);
                },
            };
            resolved.push((pass, node));
            at = at + 1;
        }
        assert(spec_edges_resolved(pass_views, node_views, edges@, resolved@));
        assert(spec_edges_declared(pass_views, node_views, edges@)) by {
            assert forall|edge: int| 0 <= edge < edges@.len() implies spec_declared(
                pass_views,
                (#[trigger] edges@[edge]).0@,
            ) && spec_declared(node_views, edges@[edge].1@) by {
                assert(spec_is_first(pass_views, edges@[edge].0@, resolved@[edge].0 as int));
                assert(pass_views[resolved@[edge].0 as int] == edges@[edge].0@);
                assert(node_views[resolved@[edge].1 as int] == edges@[edge].1@);
            }
        }
        assert forall|edge: int| 0 <= edge < resolved@.len() implies (
        #[trigger] resolved@[edge]).0 < pass_names@.len() && resolved@[edge].1 < nodes@.len() by {
            assert(spec_is_first(pass_views, edges@[edge].0@, resolved@[edge].0 as int));
        }
        let images: Vec<ImageHandle> = Vec::new();
        let mut passes: Vec<Pass> = Vec::new();
        let mut index: usize = 0;
        while index < pass_names.len()
            invariant
                index <= pass_names@.len(),
                forall|edge: int|
                    0 <= edge < resolved@.len() ==> (#[trigger] resolved@[edge]).0
                        < pass_names@.len() && resolved@[edge].1 < nodes@.len(),
                pass_views == spec_views(pass_names@),
                node_views == spec_node_names(nodes@),
                spec_edges_resolved(pass_views, node_views, edges@, resolved@),
                images@.len() == 0,
                passes@.len() == index,
                forall|before: int|
                    0 <= before < index ==> (#[trigger] passes@[before]).name@
                        == pass_names@[before]@ && spec_pass_matches(
                        passes@[before],
                        nodes@,
                        resolved@,
                        before,
                        images@,
                    ),
                forall|before: int|
                    0 <= before < index ==> #[trigger] spec_pass_has_edge(
                        pass_views,
                        edges@,
                        before,
                    ),
            decreases pass_names@.len() - index,
        {
            proof {
                lemma_attachments_of_edges(nodes@, resolved@, index as int);
            }
            match assemble_pass(pass_names[index].clone(), &nodes, &resolved, index, &images) {
                Some(pass) => {
                    proof {
                        let edge = choose|edge: int|
                            0 <= edge < resolved@.len() && (#[trigger] resolved@[edge]).0 == index;
                        assert(spec_is_first(pass_views, edges@[edge].0@, index as int));
                    }
                    passes.push(pass);
                },
                None => {
                    proof {
                        assert forall|edge: int| 0 <= edge < edges@.len() implies !spec_is_first(
                            pass_views,
                            (#[trigger] edges@[edge]).0@,
                            index as int,
                        ) by {
                            assert(resolved@[edge].0 != index);
                            assert(spec_is_first(
                                pass_views,
                                edges@[edge].0@,
                                resolved@[edge].0 as int,
                            ));
                        }
                        assert(!spec_pass_has_edge(pass_views, edges@, index as int));
                    }
                    return Err(Error::GraphValidation);
                },
            }
            index = index + 1;
        }
        let graph = RenderGraph { nodes, edges: resolved, passes, backbuffer_images: images };
        assert(spec_pass_names(graph.passes@) =~= pass_views);
        Ok(graph)
    }

    /// Supplies the images of the presentation surface. Every pass that
    /// presents gets one framebuffer for each of them, in their order;
    /// nothing else changes.
    pub fn insert_backbuffer_images(&mut self, images: Vec<ImageHandle>)
        requires
            old(self).spec_well_formed(),
        ensures
            final(self).spec_well_formed(),
            final(self).backbuffer_images@ == images@,
            final(self).nodes == old(self).nodes,
            final(self).edges == old(self).edges,
            spec_pass_names(final(self).passes@) == spec_pass_names(old(self).passes@),
    {
        let mut passes: Vec<Pass> = Vec::new();
        let mut index: usize = 0;
        while index < self.passes.len()
            invariant
                *self == *old(self),
                self.spec_well_formed(),
                index <= self.passes@.len(),
                passes@.len() == index,
                forall|before: int|
                    0 <= before < index ==> (#[trigger] passes@[before]).name@
                        == self.passes@[before].name@ && spec_pass_matches(
                        passes@[before],
                        self.nodes@,
                        self.edges@,
                        before,
                        images@,
                    ),
            decreases self.passes@.len() - index,
        {
            match assemble_pass(
                self.passes[index].name.clone(),
                &self.nodes,
                &self.edges,
                index,
                &images,
            ) {
                Some(pass) => {
                    passes.push(pass);
                },
                None => {
                    assert(spec_pass_matches(
                        self.passes@[index as int],
                        self.nodes@,
                        self.edges@,
                        index as int,
                        self.backbuffer_images@,
                    ));
                    vstd::pervasive::unreached::<()>();
                },
            }
            index = index + 1;
        }
        assert(spec_pass_names(passes@) =~= spec_pass_names(self.passes@));
        self.passes = passes;
        self.backbuffer_images = images;
    }

    /// The images that the owner of the graph has to allocate before a
    /// pass can run.
    pub fn image_requests(&self) -> (requests: Vec<NodeImageRequest>)
        ensures
            requests@ == spec_image_requests(self.nodes@),
    {
        let mut requests: Vec<NodeImageRequest> = Vec::new();
        let mut at: usize = 0;
        while at < self.nodes.len()
            invariant
                at <= self.nodes@.len(),
                requests@ == spec_image_requests(self.nodes@.subrange(0, at as int)),
            decreases self.nodes@.len() - at,
        {
            let node = &self.nodes[at];
            proof {
                assert(self.nodes@.subrange(0, at + 1).drop_last() =~= self.nodes@.subrange(
                    0,
                    at as int,
                ));
                assert(self.nodes@.subrange(0, at + 1).last() == self.nodes@[at as int]);
            }
            if !is_backbuffer_name(node.name.as_str()) {
                let depth = node.format.is_depth();
                let bits: u32 = if depth {
                    if node.force_shader_read {
                        USAGE_DEPTH_STENCIL_ATTACHMENT | USAGE_SAMPLED
                    } else {
                        USAGE_DEPTH_STENCIL_ATTACHMENT
                    }
                } else {
                    if node.force_shader_read {
                        USAGE_COLOR_ATTACHMENT | USAGE_SAMPLED
                    } else {
                        USAGE_COLOR_ATTACHMENT
                    }
                };
                requests.push(
                    NodeImageRequest {
                        node: at,
                        info: ImageCreateInfo {
                            extent: Extent3D {
                                width: node.extent.width,
                                height: node.extent.height,
                                depth: 1,
                            },
                            mip_levels: 1,
                            array_layers: 1,
                            format: node.format,
                            initial_layout: ImageLayout::Undefined,
                            usage: ImageUsageFlags { bits },
                            samples: node.samples,
                            cube_compatible: false,
                        },
                    },
                );
            }
            at = at + 1;
        }
        assert(self.nodes@.subrange(0, at as int) =~= self.nodes@);
        requests
    }

    /// Whether the graph is as `build` and `insert_backbuffer_images`
    /// leave one. Every graph that only they have touched is.
    pub fn is_well_formed(&self) -> (well_formed: bool)
        ensures
            well_formed == self.spec_well_formed(),
    {
        let mut at: usize = 0;
        while at < self.edges.len()
            invariant
                at <= self.edges@.len(),
                forall|before: int|
                    0 <= before < at ==> (#[trigger] self.edges@[before]).0 < self.passes@.len()
                        && self.edges@[before].1 < self.nodes@.len(),
            decreases self.edges@.len() - at,
        {
            let edge = self.edges[at];
            if edge.0 >= self.passes.len() || edge.1 >= self.nodes.len() {
                return false;
            }
            at = at + 1;
        }
        let mut index: usize = 0;
        while index < self.passes.len()
            invariant
                index <= self.passes@.len(),
                forall|at: int|
                    0 <= at < self.edges@.len() ==> (#[trigger] self.edges@[at]).0
                        < self.passes@.len() && self.edges@[at].1 < self.nodes@.len(),
                forall|before: int|
                    0 <= before < index ==> spec_pass_matches(
                        #[trigger] self.passes@[before],
                        self.nodes@,
                        self.edges@,
                        before,
                        self.backbuffer_images@,
                    ),
            decreases self.passes@.len() - index,
        {
            let pass = &self.passes[index];
            let expected = match assemble_pass(
                pass.name.clone(),
                &self.nodes,
                &self.edges,
                index,
                &self.backbuffer_images,
            ) {
                Some(expected) => expected,
                None => {
                    return false;
                },
            };
            let same = same_attachments(&pass.attachments, &expected.attachments) && pass.extent
                == expected.extent && pass.presents == expected.presents && same_indices(
                &pass.dependencies,
                &expected.dependencies,
            ) && same_framebuffers(&pass.framebuffers, &expected.framebuffers);
            if !same {
                proof {
                    if spec_pass_matches(
                        *pass,
                        self.nodes@,
                        self.edges@,
                        index as int,
                        self.backbuffer_images@,
                    ) {
                        assert(spec_same_framebuffers(pass.framebuffers@, expected.framebuffers@));
                    }
                }
                return false;
            }
            index = index + 1;
        }
        true
    }

    /// Looks a pass up by name.
    pub fn pass(&self, name: &str) -> (outcome: Result<&Pass, Error>)
        ensures
            match outcome {
                Ok(pass) => exists|index: int|
                    spec_is_first(spec_pass_names(self.passes@), name@, index) && *pass
                        == #[trigger] self.passes@[index],
                Err(error) => error == Error::UnknownPass && !self.spec_resolves(name@),
            },
    {
        match find_pass(&self.passes, name) {
            Some(index) => Ok(&self.passes[index]),
            None => Err(Error::UnknownPass),
        }
    }

    /// Looks an image node up by name.
    pub fn node(&self, name: &str) -> (outcome: Result<&ImageNode, Error>)
        ensures
            match outcome {
                Ok(node) => exists|index: int|
                    spec_is_first(spec_node_names(self.nodes@), name@, index) && *node
                        == #[trigger] self.nodes@[index],
                Err(error) => error == Error::UnknownNode && !spec_declared(
                    spec_node_names(self.nodes@),
                    name@,
                ),
            },
    {
        match find_node(&self.nodes, name) {
            Some(index) => Ok(&self.nodes[index]),
            None => Err(Error::UnknownNode),
        }
    }

    /// What to bind for one run of the pass `pass_name` on presentation
    /// image `image_index`. The index has to name one of the presentation
    /// images that were supplied, whatever the pass: a frame is rendered
    /// for one of them. A pass that presents runs on the framebuffer of
    /// that image; any other pass runs on its only framebuffer.
    pub fn execute_pass(&self, pass_name: &str, image_index: usize) -> (outcome: Result<
        PassExecution,
        Error,
    >)
        requires
            self.spec_well_formed(),
        ensures
            !self.spec_resolves(pass_name@) ==> outcome is Err && outcome->Err_0
                == Error::UnknownPass,
            self.spec_resolves(pass_name@) && image_index >= self.backbuffer_images@.len()
                ==> outcome is Err && outcome->Err_0 == Error::ImageIndexOutOfBounds,
            self.spec_resolves(pass_name@) && image_index < self.backbuffer_images@.len() ==> {
                &&& outcome is Ok
                &&& spec_is_first(
                    spec_pass_names(self.passes@),
                    pass_name@,
                    outcome->Ok_0.pass as int,
                )
                &&& outcome->Ok_0.extent == self.passes@[outcome->Ok_0.pass as int].extent
                &&& outcome->Ok_0.framebuffer
                    < self.passes@[outcome->Ok_0.pass as int].framebuffers@.len()
                &&& outcome->Ok_0.framebuffer == if self.passes@[outcome->Ok_0.pass as int].presents {
                    image_index
                } else {
                    0
                }
            },
    {
        let index = match find_pass(&self.passes, pass_name) {
            Some(index) => index,
            None => {
                return Err(Error::UnknownPass);
            },
        };
        assert(spec_pass_names(self.passes@)[index as int] == pass_name@);
        if image_index >= self.backbuffer_images.len() {
            return Err(Error::ImageIndexOutOfBounds);
        }
        let pass = &self.passes[index];
        assert(spec_pass_matches(
            self.passes@[index as int],
            self.nodes@,
            self.edges@,
            index as int,
            self.backbuffer_images@,
        ));
        let framebuffer: usize = if pass.presents {
            image_index
        } else {
            0
        };
        Ok(PassExecution { pass: index, framebuffer, extent: pass.extent })
    }
}

/// Framebuffer `slot` of `pass` exists, has an image for every
/// attachment of the pass, of which there is at least one, and has
/// `image` wherever a presentation image stands in.
pub open spec fn spec_framebuffer_ready(pass: Pass, slot: int, image: ImageHandle) -> bool {
    &&& 0 <= slot < pass.framebuffers@.len()
    &&& pass.framebuffers@[slot].images@.len() == pass.attachments@.len()
    &&& pass.framebuffers@[slot].images@.len() > 0
    &&& forall|at: int|
        0 <= at < pass.attachments@.len() && pass.attachments@[at].backbuffer
            ==> #[trigger] pass.framebuffers@[slot].images@[at] == ImageSource::External(image)
}

/// Two passes that differ in their framebuffers at most: they have the
/// same name, attachments, extent and dependencies, and both present or
/// neither does.
pub open spec fn spec_same_pass(first: Pass, second: Pass) -> bool {
    &&& first.name@ == second.name@
    &&& first.attachments@ == second.attachments@
    &&& first.extent == second.extent
    &&& first.presents == second.presents
    &&& first.dependencies@ == second.dependencies@
}

/// Building twice from one declaration gives graphs that resolve the
/// same pass names, namely the declared ones, to passes that differ in
/// their framebuffers at most, whatever presentation images either was
/// given; and in each of them every pass has a framebuffer for every
/// presentation image it was given last, with that image in the place
/// of each presentation attachment.
pub proof fn lemma_rebuild_resolves_same_passes(
    first: RenderGraph,
    second: RenderGraph,
    pass_names: Seq<String>,
    nodes: Seq<ImageNode>,
    edges: Seq<(String, String)>,
    name: Seq<char>,
    image_index: int,
)
    requires
        first.spec_built_from(pass_names, nodes, edges),
        second.spec_built_from(pass_names, nodes, edges),
    ensures
        first.spec_resolves(name) == second.spec_resolves(name),
        second.spec_resolves(name) == spec_declared(spec_views(pass_names), name),
        first.edges@ == second.edges@,
        forall|index: int|
            0 <= index < second.passes@.len() ==> spec_same_pass(
                #[trigger] second.passes@[index],
                first.passes@[index],
            ),
        forall|index: int|
            spec_is_first(spec_pass_names(second.passes@), name, index) && 0 <= image_index
                < second.backbuffer_images@.len() ==> spec_framebuffer_ready(
                #[trigger] second.passes@[index],
                if second.passes@[index].presents {
                    image_index
                } else {
                    0
                },
                second.backbuffer_images@[image_index],
            ),
{
    let names = spec_views(pass_names);
    let node_names = spec_node_names(nodes);
    assert(first.edges@ =~= second.edges@) by {
        assert forall|at: int| 0 <= at < edges.len() implies first.edges@[at]
            == second.edges@[at] by {
            assert(spec_is_first(names, edges[at].0@, first.edges@[at].0 as int));
            assert(spec_is_first(names, edges[at].0@, second.edges@[at].0 as int));
            assert(spec_is_first(node_names, edges[at].1@, first.edges@[at].1 as int));
            assert(spec_is_first(node_names, edges[at].1@, second.edges@[at].1 as int));
        }
    }
    assert(first.passes@.len() == second.passes@.len()) by {
        assert(spec_pass_names(first.passes@).len() == spec_pass_names(second.passes@).len());
    }
    assert forall|index: int| 0 <= index < second.passes@.len() implies spec_same_pass(
        #[trigger] second.passes@[index],
        first.passes@[index],
    ) by {
        assert(spec_pass_matches(
            first.passes@[index],
            first.nodes@,
            first.edges@,
            index,
            first.backbuffer_images@,
        ));
        assert(spec_pass_names(first.passes@)[index] == spec_pass_names(second.passes@)[index]);
    }
    assert forall|index: int|
        spec_is_first(spec_pass_names(second.passes@), name, index) && 0 <= image_index
            < second.backbuffer_images@.len() implies spec_framebuffer_ready(
        #[trigger] second.passes@[index],
        if second.passes@[index].presents {
            image_index
        } else {
            0
        },
        second.backbuffer_images@[image_index],
    ) by {
        let pass = second.passes@[index];
        assert(spec_pass_matches(
            pass,
            second.nodes@,
            second.edges@,
            index,
            second.backbuffer_images@,
        ));
        let slot = if pass.presents {
            image_index
        } else {
            0
        };
        assert(pass.framebuffers@[slot].images@ == spec_framebuffer(
            pass.attachments@,
            if pass.presents {
                second.backbuffer_images@[slot]
            } else {
                spec_null_image()
            },
        ));
    }
}

} // verus!
