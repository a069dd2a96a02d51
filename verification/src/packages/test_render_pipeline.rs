//! The fixed render pipeline: its state, settled when it is compiled, and
//! the one pass it records.

use vstd::prelude::*;
use crate::inbuilt::gui_state::TextureId;
use crate::inbuilt::setup::TextureFormat;
use crate::inbuilt::vertex_package::VertexPackage;

verus! {

/// How vertices are assembled into primitives.
#[derive(Clone, Copy, Debug, PartialEq, Eq, Structural)]
pub enum PrimitiveTopology {
    PointList,
    LineList,
    LineStrip,
    TriangleList,
    TriangleStrip,
}

/// The winding order of a triangle that faces the viewer.
#[derive(Clone, Copy, Debug, PartialEq, Eq, Structural)]
pub enum FrontFace {
    Ccw,
    Cw,
}

/// A side of a triangle.
#[derive(Clone, Copy, Debug, PartialEq, Eq, Structural)]
pub enum Face {
    Front,
    Back,
}

/// How a fragment is combined with what the target holds.
#[derive(Clone, Copy, Debug, PartialEq, Eq, Structural)]
pub enum BlendState {
    Replace,
    AlphaBlending,
    PremultipliedAlphaBlending,
}

/// The state of a render pipeline that does not depend on what it draws.
#[derive(Clone, Copy, Debug, PartialEq, Eq, Structural)]
pub struct PipelineState {
    /// The format of the colour target.
    pub target_format: TextureFormat,
    pub blend: BlendState,
    pub topology: PrimitiveTopology,
    pub front_face: FrontFace,
    /// The side of a triangle that is not drawn, if any.
    pub cull_mode: Option<Face>,
    /// Samples per pixel.
    pub sample_count: u32,
    /// Whether a depth/stencil attachment is used.
    pub depth_stencil: bool,
}

/// A colour of four 8-bit channels.
#[derive(Clone, Copy, Debug, PartialEq, Eq, Structural)]
pub struct Rgba8 {
    pub r: u8,
    pub g: u8,
    pub b: u8,
    pub a: u8,
}

/// One render pass of one indexed draw.
#[derive(Clone, Copy, Debug, PartialEq, Eq, Structural)]
pub struct RenderPass {
    /// The handle of the texture view that is drawn into.
    pub target: TextureId,
    /// The colour the target is cleared to before the draw.
    pub clear: Rgba8,
    /// The first index drawn.
    pub first_index: u32,
    /// One past the last index drawn.
    pub end_index: u32,
    /// Added to every index before the vertex is looked up.
    pub base_vertex: i32,
    /// The number of instances drawn.
    pub instances: u32,
}

/// The fixed pipeline with the geometry it draws.
#[derive(Clone, Copy, Debug, PartialEq, Eq, Structural)]
pub struct TestRenderPipeline {
    pub vertex_package: VertexPackage,
    pub state: PipelineState,
}

impl TestRenderPipeline {
    /// The state every fixed pipeline has: triangle lists, counter-clockwise
    /// front faces, back faces culled, one sample per pixel, no
    /// depth/stencil, and fragments that replace what the target holds.
    pub open spec fn fixed_state(target_format: TextureFormat) -> PipelineState {
        PipelineState {
            target_format,
            blend: BlendState::Replace,
            topology: PrimitiveTopology::TriangleList,
            front_face: FrontFace::Ccw,
            cull_mode: Some(Face::Back),
            sample_count: 1,
            depth_stencil: false,
        }
    }

    /// The pass that the pipeline records into a target: the target is
    /// cleared to opaque black, and one instance of the whole index range
    /// is drawn.
    pub open spec fn pass_into(self, target: TextureId) -> RenderPass {
        RenderPass {
            target,
            clear: Rgba8 { r: 0, g: 0, b: 0, a: 255 },
            first_index: 0,
            end_index: self.vertex_package.num_indices(),
            base_vertex: 0,
            instances: 1,
        }
    }

    /// The fixed pipeline for a colour target of the given format, drawing
    /// the given geometry.
    pub fn new(vertex_package: VertexPackage, target_format: TextureFormat) -> (r:
        TestRenderPipeline)
        ensures
            r.vertex_package == vertex_package,
            r.state == TestRenderPipeline::fixed_state(target_format),
    {
        TestRenderPipeline {
            vertex_package,
            state: PipelineState {
                target_format,
                blend: BlendState::Replace,
                topology: PrimitiveTopology::TriangleList,
                front_face: FrontFace::Ccw,
                cull_mode: Some(Face::Back),
                sample_count: 1,
                depth_stencil: false,
            },
        }
    }

    /// The pass to record into the given target.
    pub fn render_pass(&self, target: TextureId) -> (r: RenderPass)
        ensures
            r == self.pass_into(target),
    {
        RenderPass {
            target,
            clear: Rgba8 { r: 0, g: 0, b: 0, a: 255 },
            first_index: 0,
            end_index: self.vertex_package.num_indices(),
            base_vertex: 0,
            instances: 1,
        }
    }
}

} // verus!
