use quad_window::mesh::Vertex;
use quad_window::mesh::quad_vertices;
use quad_window::mesh::vertex_layout;
use quad_window::pass::Color;
use quad_window::pass::PassOp;
use quad_window::pass::frame_plan;
use quad_window::pipeline::BlendMode;
use quad_window::pipeline::Face;
use quad_window::pipeline::FrontFace;
use quad_window::pipeline::PipelineSpec;
use quad_window::pipeline::PolygonMode;
use quad_window::pipeline::Topology;
use quad_window::config::FormatInfo;

#[test]
fn vertex_buffer_holds_the_six_fixed_vertices() {
    let vertices = quad_vertices();
    let expected = vec![
        Vertex { x2: -1, y2: 1, z2: 0, r: 1, g: 0, b: 0 },
        Vertex { x2: -1, y2: -1, z2: 0, r: 0, g: 1, b: 0 },
        Vertex { x2: 1, y2: -1, z2: 0, r: 0, g: 0, b: 1 },
        Vertex { x2: 1, y2: -1, z2: 0, r: 0, g: 0, b: 1 },
        Vertex { x2: 1, y2: 1, z2: 0, r: 1, g: 1, b: 0 },
        Vertex { x2: -1, y2: 1, z2: 0, r: 1, g: 0, b: 0 },
    ];
    assert_eq!(vertices.len(), 6);
    assert_eq!(vertices, expected);
}

#[test]
fn vertices_convert_to_the_floating_point_quad() {
    let vertices = quad_vertices();
    let as_floats: Vec<[f32; 6]> = vertices
        .iter()
        .map(|v| {
            [
                f32::from(v.x2) * 0.5,
                f32::from(v.y2) * 0.5,
                f32::from(v.z2) * 0.5,
                f32::from(v.r),
                f32::from(v.g),
                f32::from(v.b),
            ]
        })
        .collect();
    let expected: Vec<[f32; 6]> = vec![
        [-0.5, 0.5, 0.0, 1.0, 0.0, 0.0],
        [-0.5, -0.5, 0.0, 0.0, 1.0, 0.0],
        [0.5, -0.5, 0.0, 0.0, 0.0, 1.0],
        [0.5, -0.5, 0.0, 0.0, 0.0, 1.0],
        [0.5, 0.5, 0.0, 1.0, 1.0, 0.0],
        [-0.5, 0.5, 0.0, 1.0, 0.0, 0.0],
    ];
    assert_eq!(as_floats, expected);
}

#[test]
fn layout_reads_six_floats_per_vertex() {
    let layout = vertex_layout();
    assert_eq!(layout.stride, 24);
    assert_eq!(layout.position.location, 0);
    assert_eq!(layout.position.offset, 0);
    assert_eq!(layout.position.components, 3);
    assert_eq!(layout.color.location, 1);
    assert_eq!(layout.color.offset, 12);
    assert_eq!(layout.color.components, 3);
}

#[test]
fn frame_begins_with_clear_to_white() {
    let ops = frame_plan(6);
    assert_eq!(ops[0], PassOp::Clear(Color { r: 1, g: 1, b: 1, a: 1 }));
}

#[test]
fn frame_holds_exactly_one_draw_of_six_vertices() {
    let ops = frame_plan(6);
    let draws: Vec<&PassOp> = ops
        .iter()
        .filter(|op| matches!(op, PassOp::Draw { .. }))
        .collect();
    assert_eq!(draws.len(), 1);
    assert_eq!(
        *draws[0],
        PassOp::Draw { vertex_count: 6, instance_count: 1 }
    );
}

#[test]
fn frame_order_is_clear_bind_draw() {
    let ops = frame_plan(6);
    let expected = vec![
        PassOp::Clear(Color { r: 1, g: 1, b: 1, a: 1 }),
        PassOp::SetPipeline,
        PassOp::SetVertexBuffer { slot: 0 },
        PassOp::Draw { vertex_count: 6, instance_count: 1 },
    ];
    assert_eq!(ops, expected);
}

#[test]
fn pipeline_uses_the_fixed_function_state() {
    let format = FormatInfo { id: 5, srgb: true };
    let pipeline = PipelineSpec::new(format);
    assert_eq!(pipeline.format, format);
    assert_eq!(pipeline.layout, vertex_layout());
    assert_eq!(pipeline.topology, Topology::TriangleList);
    assert_eq!(pipeline.front_face, FrontFace::Ccw);
    assert_eq!(pipeline.cull_mode, Some(Face::Back));
    assert_eq!(pipeline.polygon_mode, PolygonMode::Fill);
    assert_eq!(pipeline.blend, Some(BlendMode::Replace));
    assert!(pipeline.write_mask_all);
    assert!(!pipeline.depth_stencil);
    assert_eq!(pipeline.sample_count, 1);
}
