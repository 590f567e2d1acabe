//! Drawing the simulation's vertices as points: the vertex layout, a pair of
//! host-written vertex buffers used in turn, and the commands of the draw.

use crate::d3dx12::Format;
use crate::particle_life::layout::push_u32;
use crate::particle_life::layout::u32_le_bytes;
use crate::particle_life::layout::VERTEX_SIZE;
use vstd::prelude::*;

verus! {

/// Number of vertices that each of the vertex buffers holds.
pub const INITIAL_VERTEX_COUNT: usize = 100000;

/// Number of vertex buffers used in turn.
pub const VERTEX_BUFFER_COUNT: usize = 2;

/// Number of 32-bit values of the camera matrix.
pub const MATRIX_VALUES: usize = 16;

/// A vertex: a position, as two bit patterns of single-precision numbers,
/// and a packed colour.
#[derive(Clone, Copy, Debug)]
pub struct Vertex {
    pub position: [u32; 2],
    pub color: u32,
}

/// The bytes of a vertex: position, colour.
pub open spec fn vertex_bytes(vertex: Vertex) -> Seq<u8> {
    u32_le_bytes(vertex.position[0]) + u32_le_bytes(vertex.position[1]) + u32_le_bytes(vertex.color)
}

/// The bytes of a sequence of vertices, one vertex after the other.
pub open spec fn vertices_bytes(vertices: Seq<Vertex>) -> Seq<u8>
    decreases vertices.len(),
{
    if vertices.len() == 0 {
        Seq::empty()
    } else {
        vertices_bytes(vertices.drop_last()) + vertex_bytes(vertices.last())
    }
}

/// Each vertex takes twelve bytes.
pub proof fn lemma_vertices_bytes_len(vertices: Seq<Vertex>)
    ensures
        vertices_bytes(vertices).len() == 12 * vertices.len(),
    decreases vertices.len(),
{
    if vertices.len() > 0 {
        lemma_vertices_bytes_len(vertices.drop_last());
    }
}

/// What a vertex attribute holds.
#[derive(Clone, Copy, Debug, PartialEq, Eq, Structural)]
pub enum Semantic {
    Position,
    Color,
}

/// One attribute of the vertex layout.
#[derive(Clone, Copy, Debug, PartialEq, Eq, Structural)]
pub struct InputElement {
    pub semantic: Semantic,
    pub format: Format,
    pub aligned_byte_offset: u32,
}

/// How the vertices are assembled.
#[derive(Clone, Copy, Debug, PartialEq, Eq, Structural)]
pub enum Topology {
    PointList,
}

/// A command of the draw. Commands execute in recording order.
#[derive(Clone, Copy, Debug)]
pub enum DrawCommand {
    /// Bind the draw's root signature.
    SetGraphicsRootSignature,
    /// Bind the draw's pipeline state.
    SetPipelineState,
    /// Bind the vertex buffer, `size_in_bytes` bytes of it with a vertex
    /// every `stride_in_bytes` bytes, at an input slot.
    IASetVertexBuffers { start_slot: u32, size_in_bytes: u32, stride_in_bytes: u32 },
    /// Choose how the vertices are assembled.
    IASetPrimitiveTopology { topology: Topology },
    /// Set 32-bit root constants from `dest_offset` on at a root parameter.
    SetGraphicsRoot32BitConstants { root_parameter_index: u32, values: [u32; 16], dest_offset: u32 },
    /// Draw.
    DrawInstanced {
        vertex_count_per_instance: u32,
        instance_count: u32,
        start_vertex_location: u32,
        start_instance_location: u32,
    },
}

/// The commands that draw `num_points` vertices as points, with the camera
/// matrix `matrix` as root constants, from a vertex buffer of `buffer_width`
/// bytes. The size of the buffer is bound as its low 32 bits.
pub open spec fn draw_commands(matrix: [u32; 16], buffer_width: u64, num_points: u32) -> Seq<DrawCommand> {
    seq![
        DrawCommand::SetGraphicsRootSignature,
        DrawCommand::SetPipelineState,
        DrawCommand::IASetVertexBuffers {
            start_slot: 0,
            size_in_bytes: (buffer_width % 0x1_0000_0000) as u32,
            stride_in_bytes: VERTEX_SIZE as u32,
        },
        DrawCommand::IASetPrimitiveTopology { topology: Topology::PointList },
        DrawCommand::SetGraphicsRoot32BitConstants { root_parameter_index: 0, values: matrix, dest_offset: 0 },
        DrawCommand::DrawInstanced {
            vertex_count_per_instance: num_points,
            instance_count: 1,
            start_vertex_location: 0,
            start_instance_location: 0,
        },
    ]
}

/// What kind of primitive a pipeline assembles.
#[derive(Clone, Copy, Debug, PartialEq, Eq, Structural)]
pub enum PrimitiveTopologyType {
    Point,
}

/// What the pipeline of the draw is created with, as far as it is not left
/// at the device's defaults.
#[derive(Clone, Copy, Debug)]
pub struct GraphicsPipelineDesc {
    pub input_layout: [InputElement; 2],
    pub sample_mask: u32,
    pub primitive_topology_type: PrimitiveTopologyType,
    pub num_render_targets: u32,
    pub rtv_format: Format,
    pub sample_count: u32,
}

/// The layout of a vertex as the vertex shader reads it: the position at
/// offset 0, the colour behind it.
pub open spec fn vertex_layout() -> Seq<InputElement> {
    seq![
        InputElement { semantic: Semantic::Position, format: Format::R32G32Float, aligned_byte_offset: 0 },
        InputElement { semantic: Semantic::Color, format: Format::R8G8B8A8Unorm, aligned_byte_offset: 8 },
    ]
}

/// Draws vertices as points to render targets of one format.
pub struct PointsRenderer {
    rtv_format: Format,
}

impl View for PointsRenderer {
    /// The format of the render targets that the renderer draws to.
    type V = Format;

    closed spec fn view(&self) -> Format {
        self.rtv_format
    }
}

impl PointsRenderer {
    /// A renderer that draws to render targets of format `rtv_format`.
    pub fn new(rtv_format: Format) -> (renderer: PointsRenderer)
        ensures
            renderer@ == rtv_format,
    {
        PointsRenderer { rtv_format }
    }

    /// The layout of a vertex as the vertex shader reads it.
    pub fn input_layout() -> (layout: [InputElement; 2])
        ensures
            layout@ == vertex_layout(),
    {
        let layout = [
            InputElement { semantic: Semantic::Position, format: Format::R32G32Float, aligned_byte_offset: 0 },
            InputElement { semantic: Semantic::Color, format: Format::R8G8B8A8Unorm, aligned_byte_offset: 8 },
        ];
        assert(layout@ =~= vertex_layout());
        layout
    }

    /// What the pipeline of the draw is created with: it assembles points
    /// from vertices of the vertex layout and writes every sample of a
    /// single render target of the renderer's format, single sampled.
    pub fn create_pipeline_state(&self) -> (desc: GraphicsPipelineDesc)
        ensures
            desc.input_layout@ == vertex_layout(),
            desc.sample_mask == u32::MAX,
            desc.primitive_topology_type == PrimitiveTopologyType::Point,
            desc.num_render_targets == 1,
            desc.rtv_format == self@,
            desc.sample_count == 1,
    {
        GraphicsPipelineDesc {
            input_layout: PointsRenderer::input_layout(),
            sample_mask: u32::MAX,
            primitive_topology_type: PrimitiveTopologyType::Point,
            num_render_targets: 1,
            rtv_format: self.rtv_format,
            sample_count: 1,
        }
    }

    /// The commands that draw `num_points` vertices of a vertex buffer of
    /// `buffer_width` bytes as points, seen through the camera matrix
    /// `matrix`.
    pub fn render(&mut self, matrix: &[u32; 16], buffer_width: u64, num_points: u32) -> (commands: Vec<
        DrawCommand,
    >)
        ensures
            commands@ == draw_commands(*matrix, buffer_width, num_points),
            final(self)@ == old(self)@,
    {
        assert(buffer_width & 0xffff_ffff == buffer_width % 0x1_0000_0000) by (bit_vector);
        let size_in_bytes: u32 = (buffer_width & 0xffff_ffff) as u32;
        let mut commands: Vec<DrawCommand> = Vec::new();
        commands.push(DrawCommand::SetGraphicsRootSignature);
        commands.push(DrawCommand::SetPipelineState);
        commands.push(
            DrawCommand::IASetVertexBuffers { start_slot: 0, size_in_bytes, stride_in_bytes: VERTEX_SIZE as u32 },
        );
        commands.push(DrawCommand::IASetPrimitiveTopology { topology: Topology::PointList });
        commands.push(
            DrawCommand::SetGraphicsRoot32BitConstants { root_parameter_index: 0, values: *matrix, dest_offset: 0 },
        );
        commands.push(
            DrawCommand::DrawInstanced {
                vertex_count_per_instance: num_points,
                instance_count: 1,
                start_vertex_location: 0,
                start_instance_location: 0,
            },
        );
        assert(commands@ =~= draw_commands(*matrix, buffer_width, num_points));
        commands
    }
}

/// A pair of host-written vertex buffers that are filled in turn, so that the
/// host does not write the buffer that the device may still read.
pub struct PointsBuffers {
    buffer_index: usize,
}

impl View for PointsBuffers {
    /// The buffer that is handed out next: 0 or 1.
    type V = usize;

    closed spec fn view(&self) -> usize {
        self.buffer_index
    }
}

impl PointsBuffers {
    /// The invariant: the next buffer is one of the two.
    pub open spec fn wf(&self) -> bool {
        self@ < VERTEX_BUFFER_COUNT
    }

    /// The buffer after `index`, round robin.
    pub open spec fn following(index: usize) -> usize {
        ((index + 1) % (VERTEX_BUFFER_COUNT as int)) as usize
    }

    /// Two buffers, the first of which is handed out first.
    pub fn new() -> (buffers: PointsBuffers)
        ensures
            buffers.wf(),
            buffers@ == 0,
    {
        PointsBuffers { buffer_index: 0 }
    }

    /// Size in bytes of each of the two buffers.
    pub fn buffer_size() -> (size: usize)
        ensures
            size == INITIAL_VERTEX_COUNT * VERTEX_SIZE,
    {
        INITIAL_VERTEX_COUNT * VERTEX_SIZE
    }

    /// Takes the next buffer for `vertices`: the result names the buffer and
    /// holds the bytes to write at its start. The buffer after it is next.
    pub fn populate_next_buffer(&mut self, vertices: &Vec<Vertex>) -> (filled: (usize, Vec<u8>))
        requires
            old(self).wf(),
            vertices@.len() <= INITIAL_VERTEX_COUNT,
        ensures
            final(self).wf(),
            filled.0 == old(self)@,
            filled.1@ == vertices_bytes(vertices@),
            filled.1@.len() <= INITIAL_VERTEX_COUNT * VERTEX_SIZE,
            final(self)@ == Self::following(old(self)@),
    {
        let mut bytes: Vec<u8> = Vec::new();
        let mut i: usize = 0;
        assert(vertices_bytes(vertices@.take(0)) =~= Seq::<u8>::empty());
        while i < vertices.len()
            invariant
                i <= vertices@.len(),
                bytes@ == vertices_bytes(vertices@.take(i as int)),
            decreases vertices@.len() - i,
        {
            let vertex: Vertex = vertices[i];
            push_u32(&mut bytes, vertex.position[0]);
            push_u32(&mut bytes, vertex.position[1]);
            push_u32(&mut bytes, vertex.color);
            proof {
                let next = vertices@.take(i + 1);
                assert(next.drop_last() =~= vertices@.take(i as int));
                assert(next.last() == vertex);
                assert(bytes@ =~= vertices_bytes(next));
            }
            i = i + 1;
        }
        proof {
            assert(vertices@.take(vertices@.len() as int) =~= vertices@);
            lemma_vertices_bytes_len(vertices@);
        }
        let buffer = self.get_next_buffer();
        (buffer, bytes)
    }

    /// Takes the next buffer; the buffer after it is next.
    pub fn get_next_buffer(&mut self) -> (buffer: usize)
        requires
            old(self).wf(),
        ensures
            final(self).wf(),
            buffer == old(self)@,
            final(self)@ == Self::following(old(self)@),
            final(self)@ == 1 - old(self)@,
    {
        let buffer = self.buffer_index;
        self.buffer_index = (self.buffer_index + 1) % VERTEX_BUFFER_COUNT;
        buffer
    }
}

} // verus!
