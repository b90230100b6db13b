use hotreload::layout::{InputStepMode, VertexAttribute, VertexFormat};
use hotreload::{grass, quad};

fn attribute(offset: u64, shader_location: u32, format: VertexFormat) -> VertexAttribute {
    VertexAttribute { offset, shader_location, format }
}

#[test]
fn format_sizes() {
    assert_eq!(VertexFormat::Float2.size(), 8);
    assert_eq!(VertexFormat::Float3.size(), 12);
    assert_eq!(VertexFormat::Float4.size(), 16);
}

#[test]
fn grass_vertex_attributes() {
    assert_eq!(
        grass::Vertex::attributes(),
        [
            attribute(0, 0, VertexFormat::Float3),
            attribute(12, 1, VertexFormat::Float3),
            attribute(24, 2, VertexFormat::Float2),
        ]
    );
    assert_eq!(grass::Vertex::STRIDE, 32);
}

#[test]
fn grass_instance_attributes() {
    assert_eq!(
        grass::Instance::attributes(),
        [
            attribute(0, 5, VertexFormat::Float4),
            attribute(16, 6, VertexFormat::Float4),
            attribute(32, 7, VertexFormat::Float4),
            attribute(48, 8, VertexFormat::Float4),
        ]
    );
    assert_eq!(grass::Instance::STRIDE, 64);
}

#[test]
fn quad_vertex_attributes() {
    assert_eq!(
        quad::Vertex::attributes(),
        [
            attribute(0, 0, VertexFormat::Float3),
            attribute(12, 1, VertexFormat::Float3),
            attribute(24, 2, VertexFormat::Float2),
        ]
    );
    assert_eq!(quad::Vertex::STRIDE, 32);
}

#[test]
fn quad_instance_attributes() {
    assert_eq!(
        quad::Instance::attributes(),
        [
            attribute(0, 5, VertexFormat::Float4),
            attribute(16, 6, VertexFormat::Float4),
            attribute(32, 7, VertexFormat::Float4),
            attribute(48, 8, VertexFormat::Float4),
            attribute(64, 9, VertexFormat::Float4),
        ]
    );
    assert_eq!(quad::Instance::STRIDE, 80);
}

#[test]
fn attributes_are_packed_and_fill_the_stride() {
    let tables: Vec<(Vec<VertexAttribute>, u32, u64)> = vec![
        (grass::Vertex::attributes().to_vec(), 0, grass::Vertex::STRIDE),
        (grass::Instance::attributes().to_vec(), 5, grass::Instance::STRIDE),
        (quad::Vertex::attributes().to_vec(), 0, quad::Vertex::STRIDE),
        (quad::Instance::attributes().to_vec(), 5, quad::Instance::STRIDE),
    ];
    for (attributes, first_location, stride) in tables {
        let mut offset = 0;
        let mut location = first_location;
        for attribute in attributes {
            assert_eq!(attribute.offset, offset);
            assert_eq!(attribute.shader_location, location);
            offset += attribute.format.size();
            location += 1;
        }
        assert_eq!(offset, stride);
    }
}

#[test]
fn grass_buffer_layouts() {
    let layouts = grass::vertex_buffers_layout();
    assert_eq!(layouts.len(), 2);
    assert_eq!(layouts[0].array_stride, 32);
    assert_eq!(layouts[0].step_mode, InputStepMode::Vertex);
    assert_eq!(layouts[0].attributes, grass::Vertex::attributes().to_vec());
    assert_eq!(layouts[1].array_stride, 64);
    assert_eq!(layouts[1].step_mode, InputStepMode::Instance);
    assert_eq!(layouts[1].attributes, grass::Instance::attributes().to_vec());
}

#[test]
fn quad_buffer_layouts() {
    let layouts = quad::vertex_buffers_layout();
    assert_eq!(layouts.len(), 2);
    assert_eq!(layouts[0].array_stride, 32);
    assert_eq!(layouts[0].step_mode, InputStepMode::Vertex);
    assert_eq!(layouts[0].attributes, quad::Vertex::attributes().to_vec());
    assert_eq!(layouts[1].array_stride, 80);
    assert_eq!(layouts[1].step_mode, InputStepMode::Instance);
    assert_eq!(layouts[1].attributes, quad::Instance::attributes().to_vec());
}
