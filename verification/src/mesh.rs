//! The static geometry: the six vertices of the two triangles that form the
//! quad, and the layout under which the pipeline reads them.

use vstd::prelude::*;

verus! {

/// One vertex of the quad. The geometry lies on a half-unit grid, so the
/// position components are stored doubled (`x2` is twice the x coordinate,
/// and so on); the color channels carry the intensity itself, which the
/// fixed palette only ever sets to 0 or 1.
#[derive(Clone, Copy, PartialEq, Eq, Structural, Debug)]
pub struct Vertex {
    pub x2: i8,
    pub y2: i8,
    pub z2: i8,
    pub r: u8,
    pub g: u8,
    pub b: u8,
}

/// The fixed vertex list: two counter-clockwise triangles sharing the
/// top-left and bottom-right corners of a half-unit quad, colored red,
/// green, blue, and yellow at the four corners.
pub open spec fn quad() -> Seq<Vertex> {
    seq![
        Vertex { x2: -1i8, y2: 1, z2: 0, r: 1, g: 0, b: 0 },
        Vertex { x2: -1i8, y2: -1i8, z2: 0, r: 0, g: 1, b: 0 },
        Vertex { x2: 1, y2: -1i8, z2: 0, r: 0, g: 0, b: 1 },
        Vertex { x2: 1, y2: -1i8, z2: 0, r: 0, g: 0, b: 1 },
        Vertex { x2: 1, y2: 1, z2: 0, r: 1, g: 1, b: 0 },
        Vertex { x2: -1i8, y2: 1, z2: 0, r: 1, g: 0, b: 0 },
    ]
}

/// The vertex buffer's contents: exactly the six vertices of `quad`, in
/// draw order.
pub fn quad_vertices() -> (vertices: Vec<Vertex>)
    ensures
        vertices@ == quad(),
        vertices@.len() == 6,
{
    let mut vertices: Vec<Vertex> = Vec::new();
    vertices.push(Vertex { x2: -1, y2: 1, z2: 0, r: 1, g: 0, b: 0 });
    vertices.push(Vertex { x2: -1, y2: -1, z2: 0, r: 0, g: 1, b: 0 });
    vertices.push(Vertex { x2: 1, y2: -1, z2: 0, r: 0, g: 0, b: 1 });
    vertices.push(Vertex { x2: 1, y2: -1, z2: 0, r: 0, g: 0, b: 1 });
    vertices.push(Vertex { x2: 1, y2: 1, z2: 0, r: 1, g: 1, b: 0 });
    vertices.push(Vertex { x2: -1, y2: 1, z2: 0, r: 1, g: 0, b: 0 });
    proof {
        assert(vertices@ =~= quad());
    }
    vertices
}

/// One attribute of the vertex buffer layout: the shader location it feeds,
/// its byte offset from the start of a vertex, and its number of 32-bit
/// float components.
#[derive(Clone, Copy, PartialEq, Eq, Structural, Debug)]
pub struct VertexAttribute {
    pub location: u32,
    pub offset: u32,
    pub components: u32,
}

/// The layout under which the pipeline reads the vertex buffer: the stride
/// of one vertex in bytes, advancing once per vertex, with the position and
/// color attributes.
#[derive(Clone, Copy, PartialEq, Eq, Structural, Debug)]
pub struct VertexLayout {
    pub stride: u32,
    pub position: VertexAttribute,
    pub color: VertexAttribute,
}

/// The one layout the program ever declares: six four-byte floats per
/// vertex, position at location 0 / offset 0, color at location 1 right
/// after the three position floats.
pub open spec fn quad_layout() -> VertexLayout {
    VertexLayout {
        stride: 24,
        position: VertexAttribute { location: 0, offset: 0, components: 3 },
        color: VertexAttribute { location: 1, offset: 12, components: 3 },
    }
}

/// Builds the vertex buffer layout the pipeline declares.
pub fn vertex_layout() -> (layout: VertexLayout)
    ensures
        layout == quad_layout(),
        layout.stride == 24,
        layout.position.components == 3,
        layout.color.components == 3,
{
    VertexLayout {
        stride: 24,
        position: VertexAttribute { location: 0, offset: 0, components: 3 },
        color: VertexAttribute { location: 1, offset: 12, components: 3 },
    }
}

} // verus!
