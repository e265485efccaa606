use vstd::prelude::*;
use vstd::string::*;
use crate::error::Error;
use crate::types::{BufferHandle, Format, SampleCount};

verus! {

/// The corners of the cube, three coordinates each, as the bits of
/// single-precision numbers: the front face, then the back face.
pub const VERTICES: [u32; 24] = [
    0xbf00_0000, 0xbf00_0000, 0x3f00_0000,
    0x3f00_0000, 0xbf00_0000, 0x3f00_0000,
    0x3f00_0000, 0x3f00_0000, 0x3f00_0000,
    0xbf00_0000, 0x3f00_0000, 0x3f00_0000,
    0xbf00_0000, 0xbf00_0000, 0xbf00_0000,
    0x3f00_0000, 0xbf00_0000, 0xbf00_0000,
    0x3f00_0000, 0x3f00_0000, 0xbf00_0000,
    0xbf00_0000, 0x3f00_0000, 0xbf00_0000,
];

/// Twelve triangles, two to a face, and after them the four line
/// segments that join the front face to the back face.
pub const INDICES: [u32; 44] = [
    0, 1, 2, 2, 3, 0,
    1, 5, 6, 6, 2, 1,
    7, 6, 5, 5, 4, 7,
    4, 0, 3, 3, 7, 4,
    4, 5, 1, 1, 0, 4,
    3, 2, 6, 6, 7, 3,
    0, 4, 1, 5, 2, 6, 3, 7,
];

/// How many of the indices belong to line segments.
pub const NUMBER_OF_LINE_SEGMENTS: usize = 8;

/// The vertex buffer and the index buffer of a mesh.
#[derive(Debug, Clone, Copy, PartialEq, Eq, Structural)]
pub struct GeometryBuffer {
    pub vertex_buffer: BufferHandle,
    pub index_buffer: Option<BufferHandle>,
}

/// Where a vertex attribute lies within a vertex.
#[derive(Debug, Clone, Copy, PartialEq, Eq, Structural)]
pub struct VertexInputAttributeDescription {
    pub binding: u32,
    pub location: u32,
    pub format: Format,
    pub offset: u32,
}

/// How vertices follow each other in a vertex buffer.
#[derive(Debug, Clone, Copy, PartialEq, Eq, Structural)]
pub struct VertexInputBindingDescription {
    pub binding: u32,
    pub stride: u32,
    /// One step for each instance; otherwise one for each vertex.
    pub per_instance: bool,
}

/// One command of drawing.
#[derive(Debug, Clone, Copy, PartialEq, Eq, Structural)]
pub enum DrawCommand {
    /// Hand the transform and the colour to the shaders.
    PushConstants { layout: PipelineLayout },
    BindPipeline { pipeline: Pipeline },
    /// Set the line width that wireframes are drawn with.
    SetWireframeLineWidth,
    /// Set the depth bias that lifts wireframes off the faces.
    SetWireframeDepthBias,
    BindGeometry { geometry: GeometryBuffer },
    DrawIndexed {
        index_count: u32,
        instance_count: u32,
        first_index: u32,
        vertex_offset: i32,
        first_instance: u32,
    },
}

/// The opaque handle of a graphics pipeline.
#[derive(Debug, Clone, Copy, PartialEq, Eq, Structural)]
pub struct Pipeline {
    pub raw: u64,
}

/// The opaque handle of a pipeline layout.
#[derive(Debug, Clone, Copy, PartialEq, Eq, Structural)]
pub struct PipelineLayout {
    pub raw: u64,
}

/// An indexed draw of one instance from the first vertex.
pub open spec fn spec_draw_indexed(index_count: u32, first_index: u32) -> DrawCommand {
    DrawCommand::DrawIndexed {
        index_count,
        instance_count: 1,
        first_index,
        vertex_offset: 0,
        first_instance: 0,
    }
}

fn draw_indexed(index_count: u32, first_index: u32) -> (command: DrawCommand)
    ensures
        command == spec_draw_indexed(index_count, first_index),
{
    DrawCommand::DrawIndexed {
        index_count,
        instance_count: 1,
        first_index,
        vertex_offset: 0,
        first_instance: 0,
    }
}

/// A unit cube on the GPU.
#[derive(Debug, Clone, Copy, PartialEq, Eq, Structural)]
pub struct Cube {
    pub geometry_buffer: GeometryBuffer,
}

impl Cube {
    /// The faces: all twelve triangles.
    pub open spec fn spec_draw(self) -> Seq<DrawCommand> {
        seq![
            DrawCommand::BindGeometry { geometry: self.geometry_buffer },
            spec_draw_indexed(36, 0),
        ]
    }

    /// The outlines of the front face and of the back face, each drawn
    /// over the six indices of its two triangles.
    pub open spec fn spec_draw_loops(self) -> Seq<DrawCommand> {
        seq![
            DrawCommand::BindGeometry { geometry: self.geometry_buffer },
            spec_draw_indexed(6, 0),
            spec_draw_indexed(6, 12),
        ]
    }

    /// The four segments between the front face and the back face.
    pub open spec fn spec_draw_segments(self) -> Seq<DrawCommand> {
        seq![
            DrawCommand::BindGeometry { geometry: self.geometry_buffer },
            spec_draw_indexed(8, 36),
        ]
    }

    /// The cube over a geometry buffer that holds `VERTICES` and
    /// `INDICES`. A geometry buffer without an index buffer is refused.
    pub fn new(geometry_buffer: GeometryBuffer) -> (outcome: Result<Self, Error>)
        ensures
            geometry_buffer.index_buffer is Some ==> outcome == Ok::<Cube, Error>(
                Cube { geometry_buffer },
            ),
            geometry_buffer.index_buffer is None ==> outcome == Err::<Cube, Error>(
                Error::MissingIndexBuffer,
            ),
    {
        match geometry_buffer.index_buffer {
            Some(_) => Ok(Self { geometry_buffer }),
            None => Err(Error::MissingIndexBuffer),
        }
    }

    /// The sizes in bytes of the vertex buffer and of the index buffer.
    pub fn buffer_sizes() -> (sizes: (u64, u64))
        ensures
            sizes.0 == 4 * VERTICES@.len(),
            sizes.1 == 4 * INDICES@.len(),
            sizes == (96u64, 176u64),
    {
        (96, 176)
    }

    /// A vertex is a position of three single-precision numbers.
    pub fn vertex_attributes() -> (attributes: [VertexInputAttributeDescription; 1])
        ensures
            attributes[0] == (VertexInputAttributeDescription {
                binding: 0,
                location: 0,
                format: Format::R32G32B32Sfloat,
                offset: 0,
            }),
    {
        [
            VertexInputAttributeDescription {
                binding: 0,
                location: 0,
                format: Format::R32G32B32Sfloat,
                offset: 0,
            },
        ]
    }

    /// Vertices lie twelve bytes apart.
    pub fn vertex_inputs() -> (inputs: [VertexInputBindingDescription; 1])
        ensures
            inputs[0] == (VertexInputBindingDescription {
                binding: 0,
                stride: 12,
                per_instance: false,
            }),
    {
        [VertexInputBindingDescription { binding: 0, stride: 12, per_instance: false }]
    }

    pub fn draw(&self) -> (commands: Vec<DrawCommand>)
        ensures
            commands@ == self.spec_draw(),
    {
        let mut commands: Vec<DrawCommand> = Vec::new();
        commands.push(DrawCommand::BindGeometry { geometry: self.geometry_buffer });
        commands.push(draw_indexed(36, 0));
        assert(commands@ =~= self.spec_draw());
        commands
    }

    pub fn draw_loops(&self) -> (commands: Vec<DrawCommand>)
        ensures
            commands@ == self.spec_draw_loops(),
    {
        let mut commands: Vec<DrawCommand> = Vec::new();
        commands.push(DrawCommand::BindGeometry { geometry: self.geometry_buffer });
        commands.push(draw_indexed(6, 0));
        commands.push(draw_indexed(6, 12));
        assert(commands@ =~= self.spec_draw_loops());
        commands
    }

    pub fn draw_segments(&self) -> (commands: Vec<DrawCommand>)
        ensures
            commands@ == self.spec_draw_segments(),
    {
        let mut commands: Vec<DrawCommand> = Vec::new();
        commands.push(DrawCommand::BindGeometry { geometry: self.geometry_buffer });
        commands.push(draw_indexed(8, 36));
        assert(commands@ =~= self.spec_draw_segments());
        commands
    }
}

/// The files of the compiled shaders of one pipeline.
#[derive(Debug, Clone, PartialEq, Eq)]
pub struct ShaderPathSet {
    pub vertex: String,
    pub fragment: String,
}

/// How a pipeline fills its primitives.
#[derive(Debug, Clone, Copy, PartialEq, Eq, Structural)]
pub enum PolygonMode {
    Fill,
    Line,
}

/// How a pipeline groups its vertices.
#[derive(Debug, Clone, Copy, PartialEq, Eq, Structural)]
pub enum PrimitiveTopology {
    TriangleList,
    LineStrip,
    LineList,
}

/// What distinguishes the pipelines of the cube from each other. All of
/// them take viewport and scissor at draw time; `dynamic_lines` adds line
/// width and depth bias.
#[derive(Debug, Clone, Copy, PartialEq, Eq, Structural)]
pub struct GraphicsPipelineSettings {
    pub polygon_mode: PolygonMode,
    pub topology: PrimitiveTopology,
    pub dynamic_lines: bool,
    pub rasterization_samples: SampleCount,
    pub push_constant_size: u32,
}

/// The size in bytes of the push constants: a four by four matrix and a
/// vector of four single-precision numbers.
pub const PUSH_CONSTANT_SIZE: u32 = 80;

/// The settings of the three pipelines: filled triangles, line strips,
/// and line lists.
pub open spec fn spec_pipeline_settings(samples: SampleCount) -> Seq<GraphicsPipelineSettings> {
    seq![
        GraphicsPipelineSettings {
            polygon_mode: PolygonMode::Fill,
            topology: PrimitiveTopology::TriangleList,
            dynamic_lines: false,
            rasterization_samples: samples,
            push_constant_size: PUSH_CONSTANT_SIZE,
        },
        GraphicsPipelineSettings {
            polygon_mode: PolygonMode::Line,
            topology: PrimitiveTopology::LineStrip,
            dynamic_lines: true,
            rasterization_samples: samples,
            push_constant_size: PUSH_CONSTANT_SIZE,
        },
        GraphicsPipelineSettings {
            polygon_mode: PolygonMode::Line,
            topology: PrimitiveTopology::LineList,
            dynamic_lines: true,
            rasterization_samples: samples,
            push_constant_size: PUSH_CONSTANT_SIZE,
        },
    ]
}

/// Draws a cube, solid or as a wireframe.
#[derive(Debug, Clone, Copy, PartialEq, Eq, Structural)]
pub struct CubeRender {
    pub cube: Cube,
    pub solid_pipeline: Option<Pipeline>,
    pub loop_pipeline: Option<Pipeline>,
    pub segment_pipeline: Option<Pipeline>,
    pub pipeline_layout: Option<PipelineLayout>,
}

impl CubeRender {
    /// The commands that draw the cube, given all that they need.
    pub open spec fn spec_commands(
        self,
        solid: bool,
        layout: PipelineLayout,
        solid_pipeline: Pipeline,
        loop_pipeline: Pipeline,
        segment_pipeline: Pipeline,
    ) -> Seq<DrawCommand> {
        if solid {
            seq![
                DrawCommand::PushConstants { layout },
                DrawCommand::BindPipeline { pipeline: solid_pipeline },
            ] + self.cube.spec_draw()
        } else {
            seq![
                DrawCommand::PushConstants { layout },
                DrawCommand::BindPipeline { pipeline: loop_pipeline },
                DrawCommand::SetWireframeLineWidth,
                DrawCommand::SetWireframeDepthBias,
            ] + self.cube.spec_draw_loops() + seq![
                DrawCommand::BindPipeline { pipeline: segment_pipeline },
            ] + self.cube.spec_draw_segments()
        }
    }

    /// Whether `issue_commands` has what it needs: the solid pipeline,
    /// the loop pipeline and the layout in any case, and the segment
    /// pipeline for a wireframe.
    pub open spec fn spec_ready(self, solid: bool) -> bool {
        &&& self.solid_pipeline is Some
        &&& self.loop_pipeline is Some
        &&& self.pipeline_layout is Some
        &&& solid || self.segment_pipeline is Some
    }

    /// A renderer without pipelines.
    pub fn new(cube: Cube) -> (render: Self)
        ensures
            render == (CubeRender {
                cube,
                solid_pipeline: None,
                loop_pipeline: None,
                segment_pipeline: None,
                pipeline_layout: None,
            }),
    {
        Self {
            cube,
            solid_pipeline: None,
            loop_pipeline: None,
            segment_pipeline: None,
            pipeline_layout: None,
        }
    }

    /// Where the compiled shaders of the cube lie.
    pub fn shader_paths() -> (outcome: Result<ShaderPathSet, Error>)
        ensures
            outcome is Ok,
            outcome->Ok_0.vertex@ == "assets/shaders/cube/cube.vert.spv"@,
            outcome->Ok_0.fragment@ == "assets/shaders/cube/cube.frag.spv"@,
    {
        Ok(
            ShaderPathSet {
                vertex: String::from_str("assets/shaders/cube/cube.vert.spv"),
                fragment: String::from_str("assets/shaders/cube/cube.frag.spv"),
            },
        )
    }

    /// Begins the creation of the pipelines: forgets the loop pipeline,
    /// the segment pipeline and the layout, and says what the solid, the
    /// loop and the segment pipeline are to be made with.
    pub fn create_pipeline(&mut self, samples: SampleCount) -> (settings: Vec<
        GraphicsPipelineSettings,
    >)
        ensures
            settings@ == spec_pipeline_settings(samples),
            *final(self) == (CubeRender {
                loop_pipeline: None,
                segment_pipeline: None,
                pipeline_layout: None,
                ..*old(self)
            }),
    {
        self.loop_pipeline = None;
        self.segment_pipeline = None;
        self.pipeline_layout = None;
        let mut settings: Vec<GraphicsPipelineSettings> = Vec::new();
        settings.push(
            GraphicsPipelineSettings {
                polygon_mode: PolygonMode::Fill,
                topology: PrimitiveTopology::TriangleList,
                dynamic_lines: false,
                rasterization_samples: samples,
                push_constant_size: PUSH_CONSTANT_SIZE,
            },
        );
        settings.push(
            GraphicsPipelineSettings {
                polygon_mode: PolygonMode::Line,
                topology: PrimitiveTopology::LineStrip,
                dynamic_lines: true,
                rasterization_samples: samples,
                push_constant_size: PUSH_CONSTANT_SIZE,
            },
        );
        settings.push(
            GraphicsPipelineSettings {
                polygon_mode: PolygonMode::Line,
                topology: PrimitiveTopology::LineList,
                dynamic_lines: true,
                rasterization_samples: samples,
                push_constant_size: PUSH_CONSTANT_SIZE,
            },
        );
        assert(settings@ =~= spec_pipeline_settings(samples));
        settings
    }

    /// Ends the creation of the pipelines: keeps the three that were
    /// made, and the layout of the solid one.
    pub fn install_pipelines(
        &mut self,
        solid_pipeline: Pipeline,
        loop_pipeline: Pipeline,
        segment_pipeline: Pipeline,
        pipeline_layout: PipelineLayout,
    )
        ensures
            *final(self) == (CubeRender {
                cube: old(self).cube,
                solid_pipeline: Some(solid_pipeline),
                loop_pipeline: Some(loop_pipeline),
                segment_pipeline: Some(segment_pipeline),
                pipeline_layout: Some(pipeline_layout),
            }),
    {
        self.solid_pipeline = Some(solid_pipeline);
        self.loop_pipeline = Some(loop_pipeline);
        self.segment_pipeline = Some(segment_pipeline);
        self.pipeline_layout = Some(pipeline_layout);
    }

    /// The commands that draw the cube: its faces if `solid`, otherwise
    /// the outlines of two faces and the segments between them.
    pub fn issue_commands(&self, solid: bool) -> (outcome: Result<Vec<DrawCommand>, Error>)
        ensures
            !self.spec_ready(solid) ==> outcome is Err && outcome->Err_0 == Error::MissingPipeline,
            self.spec_ready(solid) ==> outcome is Ok && outcome->Ok_0@ == self.spec_commands(
                solid,
                self.pipeline_layout->0,
                self.solid_pipeline->0,
                self.loop_pipeline->0,
                if solid {
                    self.solid_pipeline->0
                } else {
                    self.segment_pipeline->0
                },
            ),
    {
        let solid_pipeline = match self.solid_pipeline {
            Some(pipeline) => pipeline,
            None => {
                return Err(Error::MissingPipeline);
            },
        };
        let loop_pipeline = match self.loop_pipeline {
            Some(pipeline) => pipeline,
            None => {
                return Err(Error::MissingPipeline);
            },
        };
        let layout = match self.pipeline_layout {
            Some(layout) => layout,
            None => {
                return Err(Error::MissingPipeline);
            },
        };
        let mut commands: Vec<DrawCommand> = Vec::new();
        commands.push(DrawCommand::PushConstants { layout });
        if solid {
            commands.push(DrawCommand::BindPipeline { pipeline: solid_pipeline });
            let mut faces = self.cube.draw();
            commands.append(&mut faces);
            assert(commands@ =~= self.spec_commands(
                solid,
                layout,
                solid_pipeline,
                loop_pipeline,
                solid_pipeline,
            ));
        } else {
            let segment_pipeline = match self.segment_pipeline {
                Some(pipeline) => pipeline,
                None => {
                    return Err(Error::MissingPipeline);
                },
            };
            commands.push(DrawCommand::BindPipeline { pipeline: loop_pipeline });
            commands.push(DrawCommand::SetWireframeLineWidth);
            commands.push(DrawCommand::SetWireframeDepthBias);
            let mut loops = self.cube.draw_loops();
            commands.append(&mut loops);
            commands.push(DrawCommand::BindPipeline { pipeline: segment_pipeline });
            let mut segments = self.cube.draw_segments();
            commands.append(&mut segments);
            assert(commands@ =~= self.spec_commands(
                solid,
                layout,
                solid_pipeline,
                loop_pipeline,
                segment_pipeline,
            ));
        }
        Ok(commands)
    }
}

} // verus!
