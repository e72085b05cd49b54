use webgl_cube::buffer::{BufferLayout, BufferRole, GeometryBuffer};
use webgl_cube::gl::{BufferTarget, ComponentType, Usage};
use webgl_cube::mesh::Mesh;

fn float_bytes(values: &[f32]) -> Vec<u8> {
    values.iter().flat_map(|v| v.to_le_bytes()).collect()
}

fn floats(bytes: &[u8]) -> Vec<f32> {
    bytes.chunks(4).map(|w| f32::from_le_bytes([w[0], w[1], w[2], w[3]])).collect()
}

#[test]
fn layouts_of_the_four_buffers() {
    assert_eq!(
        BufferRole::Position.layout(),
        BufferLayout { target: BufferTarget::Array, usage: Usage::Static, component_type: ComponentType::Float, components: 3 }
    );
    assert_eq!(
        BufferRole::Color.layout(),
        BufferLayout { target: BufferTarget::Array, usage: Usage::Static, component_type: ComponentType::Float, components: 4 }
    );
    assert_eq!(
        BufferRole::Normal.layout(),
        BufferLayout { target: BufferTarget::Array, usage: Usage::Static, component_type: ComponentType::Float, components: 3 }
    );
    assert_eq!(
        BufferRole::Index.layout(),
        BufferLayout {
            target: BufferTarget::ElementArray,
            usage: Usage::Static,
            component_type: ComponentType::UnsignedShort,
            components: 1
        }
    );
}

#[test]
fn position_buffer_is_the_image_of_the_float_array() {
    let vertices: [f32; 72] = [
        -1.0, -1.0, 1.0, 1.0, -1.0, 1.0, 1.0, 1.0, 1.0, -1.0, 1.0, 1.0, //
        -1.0, -1.0, -1.0, -1.0, 1.0, -1.0, 1.0, 1.0, -1.0, 1.0, -1.0, -1.0, //
        -1.0, 1.0, -1.0, -1.0, 1.0, 1.0, 1.0, 1.0, 1.0, 1.0, 1.0, -1.0, //
        -1.0, -1.0, -1.0, 1.0, -1.0, -1.0, 1.0, -1.0, 1.0, -1.0, -1.0, 1.0, //
        1.0, -1.0, -1.0, 1.0, 1.0, -1.0, 1.0, 1.0, 1.0, 1.0, -1.0, 1.0, //
        -1.0, -1.0, -1.0, -1.0, -1.0, 1.0, -1.0, 1.0, 1.0, -1.0, 1.0, -1.0,
    ];
    let buffer = GeometryBuffer::build(&Mesh::cube(), BufferRole::Position);
    assert_eq!(buffer.role(), BufferRole::Position);
    assert_eq!(buffer.layout(), BufferRole::Position.layout());
    assert_eq!(buffer.bytes().len(), 288);
    assert_eq!(buffer.bytes(), &float_bytes(&vertices));
    assert_eq!(floats(buffer.bytes()), vertices.to_vec());
}

#[test]
fn normal_buffer_is_the_image_of_the_float_array() {
    let normals: [f32; 72] = [
        0.0, 0.0, 1.0, 0.0, 0.0, 1.0, 0.0, 0.0, 1.0, 0.0, 0.0, 1.0, //
        0.0, 0.0, -1.0, 0.0, 0.0, -1.0, 0.0, 0.0, -1.0, 0.0, 0.0, -1.0, //
        0.0, 1.0, 0.0, 0.0, 1.0, 0.0, 0.0, 1.0, 0.0, 0.0, 1.0, 0.0, //
        0.0, -1.0, 0.0, 0.0, -1.0, 0.0, 0.0, -1.0, 0.0, 0.0, -1.0, 0.0, //
        1.0, 0.0, 0.0, 1.0, 0.0, 0.0, 1.0, 0.0, 0.0, 1.0, 0.0, 0.0, //
        -1.0, 0.0, 0.0, -1.0, 0.0, 0.0, -1.0, 0.0, 0.0, -1.0, 0.0, 0.0,
    ];
    let buffer = GeometryBuffer::build(&Mesh::cube(), BufferRole::Normal);
    assert_eq!(buffer.role(), BufferRole::Normal);
    assert_eq!(buffer.bytes(), &float_bytes(&normals));
    assert_eq!(floats(buffer.bytes()), normals.to_vec());
}

#[test]
fn color_buffer_is_the_image_of_the_expanded_face_colors() {
    let face_colors: [[f32; 4]; 6] = [
        [1.0, 1.0, 1.0, 1.0],
        [1.0, 0.0, 0.0, 1.0],
        [0.0, 1.0, 0.0, 1.0],
        [0.0, 0.0, 1.0, 1.0],
        [1.0, 1.0, 0.0, 1.0],
        [1.0, 0.0, 1.0, 1.0],
    ];
    let colors: Vec<f32> =
        face_colors.iter().flat_map(|face| (0..4).flat_map(move |_| face.iter().copied())).collect();
    assert_eq!(colors.len(), 96);
    let buffer = GeometryBuffer::build(&Mesh::cube(), BufferRole::Color);
    assert_eq!(buffer.role(), BufferRole::Color);
    assert_eq!(buffer.bytes().len(), 384);
    assert_eq!(buffer.bytes(), &float_bytes(&colors));
}

#[test]
fn index_buffer_is_the_image_of_the_index_array() {
    let indices: [u16; 36] = [
        0, 1, 2, 0, 2, 3, 4, 5, 6, 4, 6, 7, 8, 9, 10, 8, 10, 11, //
        12, 13, 14, 12, 14, 15, 16, 17, 18, 16, 18, 19, 20, 21, 22, 20, 22, 23,
    ];
    let expected: Vec<u8> = indices.iter().flat_map(|i| i.to_le_bytes()).collect();
    let buffer = GeometryBuffer::build(&Mesh::cube(), BufferRole::Index);
    assert_eq!(buffer.role(), BufferRole::Index);
    assert_eq!(buffer.bytes().len(), 72);
    assert_eq!(buffer.bytes(), &expected);
    let read_back: Vec<u16> = buffer.bytes().chunks(2).map(|w| u16::from_le_bytes([w[0], w[1]])).collect();
    assert_eq!(read_back, indices.to_vec());
}

#[test]
fn unit_components_have_their_single_precision_patterns() {
    let buffer = GeometryBuffer::build(&Mesh::cube(), BufferRole::Position);
    let bytes = buffer.bytes();
    // The first vertex is (-1, -1, 1).
    assert_eq!(&bytes[0..4], &0xBF80_0000u32.to_le_bytes());
    assert_eq!(&bytes[8..12], &0x3F80_0000u32.to_le_bytes());
    assert_eq!(f32::from_bits(0xBF80_0000), -1.0);
    assert_eq!(f32::from_bits(0x3F80_0000), 1.0);
    assert_eq!(f32::from_bits(0), 0.0);
    let normals = GeometryBuffer::build(&Mesh::cube(), BufferRole::Normal);
    assert_eq!(&normals.bytes()[0..4], &[0u8, 0, 0, 0]);
}

#[test]
fn every_buffer_holds_whole_elements() {
    let cube = Mesh::cube();
    for role in [BufferRole::Position, BufferRole::Color, BufferRole::Index, BufferRole::Normal] {
        let buffer = GeometryBuffer::build(&cube, role);
        let layout = buffer.layout();
        let elements = if role == BufferRole::Index { cube.index_count() } else { cube.vertex_count() };
        assert_eq!(buffer.bytes().len(), elements * layout.components * layout.component_type.size());
    }
}
