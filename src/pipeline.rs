//! The fixed state of the single graphics pipeline.
use vstd::prelude::*;
use crate::mesh::{COLOR_OFFSET, POSITION_OFFSET, VERTEX_STRIDE};
use crate::surface::Extent2D;

verus! {

/// Raw API value of the three-component 32-bit float vertex format.
pub const FORMAT_R32G32B32_SFLOAT: i32 = 106;

/// One per-vertex attribute read from the vertex buffer.
#[derive(Clone, Copy, Debug, PartialEq, Eq, Structural)]
pub struct VertexAttribute {
    pub location: u32,
    pub binding: u32,
    /// Raw API value of the attribute's format.
    pub format: i32,
    pub offset: u32,
}

/// A rectangle of the framebuffer, used as viewport and as scissor.
#[derive(Clone, Copy, Debug, PartialEq, Eq, Structural)]
pub struct RenderArea {
    pub x: i32,
    pub y: i32,
    pub width: u32,
    pub height: u32,
}

#[derive(Clone, Copy, Debug, PartialEq, Eq, Structural)]
pub enum Topology {
    TriangleList,
}

#[derive(Clone, Copy, Debug, PartialEq, Eq, Structural)]
pub enum PolygonMode {
    Fill,
}

#[derive(Clone, Copy, Debug, PartialEq, Eq, Structural)]
pub enum CullMode {
    Disabled,
}

#[derive(Clone, Copy, Debug, PartialEq, Eq, Structural)]
pub enum FrontFace {
    Clockwise,
    CounterClockwise,
}

/// Everything of the pipeline but the compiled shaders, the layout and the
/// render pass. Both shader stages use the entry point `main`.
#[derive(Clone, Copy, Debug, PartialEq, Eq, Structural)]
pub struct PipelineDesc {
    /// Binding 0: the vertex buffer, advanced per vertex by this stride.
    pub vertex_stride: u32,
    pub position: VertexAttribute,
    pub color: VertexAttribute,
    pub topology: Topology,
    pub primitive_restart: bool,
    pub polygon_mode: PolygonMode,
    pub cull_mode: CullMode,
    pub front_face: FrontFace,
    pub depth_bias: bool,
    pub sample_count: u32,
    pub blend_enabled: bool,
    /// Whether the colour attachment writes all four channels.
    pub write_all_channels: bool,
    pub viewport: RenderArea,
    pub scissor: RenderArea,
}

/// The whole framebuffer of the given size.
pub open spec fn full_area(extent: Extent2D) -> RenderArea {
    RenderArea { x: 0, y: 0, width: extent.width, height: extent.height }
}

pub open spec fn pipeline_spec(extent: Extent2D) -> PipelineDesc {
    PipelineDesc {
        vertex_stride: VERTEX_STRIDE as u32,
        position: VertexAttribute {
            location: 0,
            binding: 0,
            format: FORMAT_R32G32B32_SFLOAT,
            offset: POSITION_OFFSET,
        },
        color: VertexAttribute {
            location: 1,
            binding: 0,
            format: FORMAT_R32G32B32_SFLOAT,
            offset: COLOR_OFFSET,
        },
        topology: Topology::TriangleList,
        primitive_restart: false,
        polygon_mode: PolygonMode::Fill,
        cull_mode: CullMode::Disabled,
        front_face: FrontFace::Clockwise,
        depth_bias: false,
        sample_count: 1,
        blend_enabled: false,
        write_all_channels: true,
        viewport: full_area(extent),
        scissor: full_area(extent),
    }
}

/// The framebuffer area of the given size, from the origin.
pub fn render_area(extent: Extent2D) -> (r: RenderArea)
    ensures
        r == full_area(extent),
{
    RenderArea { x: 0, y: 0, width: extent.width, height: extent.height }
}

/// The fixed pipeline state for a chain of the given resolution: two
/// interleaved three-component attributes, triangle lists, filled polygons
/// without culling, clockwise front faces, one sample, no blending, and a
/// viewport and scissor that cover the whole chain image.
pub fn pipeline_description(extent: Extent2D) -> (r: PipelineDesc)
    ensures
        r == pipeline_spec(extent),
{
    let area = render_area(extent);
    PipelineDesc {
        vertex_stride: VERTEX_STRIDE as u32,
        position: VertexAttribute {
            location: 0,
            binding: 0,
            format: FORMAT_R32G32B32_SFLOAT,
            offset: POSITION_OFFSET,
        },
        color: VertexAttribute {
            location: 1,
            binding: 0,
            format: FORMAT_R32G32B32_SFLOAT,
            offset: COLOR_OFFSET,
        },
        topology: Topology::TriangleList,
        primitive_restart: false,
        polygon_mode: PolygonMode::Fill,
        cull_mode: CullMode::Disabled,
        front_face: FrontFace::Clockwise,
        depth_bias: false,
        sample_count: 1,
        blend_enabled: false,
        write_all_channels: true,
        viewport: area,
        scissor: area,
    }
}

} // verus!
