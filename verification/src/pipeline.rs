//! The fixed render pipeline: every piece of fixed-function state the one
//! pipeline of the program is built with. Built once at startup from the
//! negotiated surface format and never rebuilt.

use vstd::prelude::*;
use crate::config::FormatInfo;
use crate::mesh::VertexLayout;
use crate::mesh::quad_layout;

verus! {

/// How the vertex stream is assembled into primitives. The quad is drawn as
/// a triangle list.
#[derive(Clone, Copy, PartialEq, Eq, Structural, Debug)]
pub enum Topology {
    PointList,
    LineList,
    LineStrip,
    TriangleList,
    TriangleStrip,
}

/// Which winding order counts as the front of a triangle.
#[derive(Clone, Copy, PartialEq, Eq, Structural, Debug)]
pub enum FrontFace {
    Ccw,
    Cw,
}

/// A triangle side, for culling.
#[derive(Clone, Copy, PartialEq, Eq, Structural, Debug)]
pub enum Face {
    Front,
    Back,
}

/// How triangles are rasterized.
#[derive(Clone, Copy, PartialEq, Eq, Structural, Debug)]
pub enum PolygonMode {
    Fill,
    Line,
    Point,
}

/// How a fragment's color is combined with the target. The quad overwrites
/// the target outright.
#[derive(Clone, Copy, PartialEq, Eq, Structural, Debug)]
pub enum BlendMode {
    Replace,
    AlphaBlending,
    PremultipliedAlphaBlending,
}

/// The immutable description of the one pipeline: a pass-through shader
/// pair over this fixed-function state. `depth_stencil` and `sample_count`
/// record that the pipeline uses no depth or stencil buffer and a single
/// sample per pixel; `write_mask_all` that every color channel is written.
#[derive(Clone, Copy, PartialEq, Eq, Structural, Debug)]
pub struct PipelineSpec {
    pub format: FormatInfo,
    pub layout: VertexLayout,
    pub topology: Topology,
    pub front_face: FrontFace,
    pub cull_mode: Option<Face>,
    pub polygon_mode: PolygonMode,
    pub blend: Option<BlendMode>,
    pub write_mask_all: bool,
    pub depth_stencil: bool,
    pub sample_count: u32,
}

impl PipelineSpec {
    /// Builds the description of the pipeline for the negotiated surface
    /// format: triangle list, counter-clockwise front faces with back-face
    /// culling, filled polygons, replace-mode blending over all channels,
    /// no depth/stencil, one sample, reading vertices under the quad's
    /// layout.
    pub fn new(format: FormatInfo) -> (pipeline: PipelineSpec)
        ensures
            pipeline.format == format,
            pipeline.layout == quad_layout(),
            pipeline.topology == Topology::TriangleList,
            pipeline.front_face == FrontFace::Ccw,
            (pipeline.cull_mode == Some(Face::Back)),
            pipeline.polygon_mode == PolygonMode::Fill,
            (pipeline.blend == Some(BlendMode::Replace)),
            pipeline.write_mask_all,
            !pipeline.depth_stencil,
            pipeline.sample_count == 1,
    {
        PipelineSpec {
            format,
            layout: crate::mesh::vertex_layout(),
            topology: Topology::TriangleList,
            front_face: FrontFace::Ccw,
            cull_mode: Some(Face::Back),
            polygon_mode: PolygonMode::Fill,
            blend: Some(BlendMode::Replace),
            write_mask_all: true,
            depth_stencil: false,
            sample_count: 1,
        }
    }
}

} // verus!
