use schwarz_engine::vertex::{
    Vertex, VertexAttribute, VertexFormat, VertexStepMode, ATTRIBUTE_SIZE, VERTEX_SIZE,
};
use schwarz_engine::wire::{
    abs, negate, push_word, push_words, words_to_bytes, HALF, NEG_HALF, NEG_ONE, ONE, SIGN_BIT,
    ZERO,
};

fn vertex(position: [f32; 3], normal: [f32; 3], color: [f32; 3]) -> Vertex {
    Vertex {
        position: position.map(f32::to_bits),
        normal: normal.map(f32::to_bits),
        color: color.map(f32::to_bits),
    }
}

#[test]
fn constants_hold_the_numbers_they_name() {
    assert_eq!(ZERO, 0.0f32.to_bits());
    assert_eq!(HALF, 0.5f32.to_bits());
    assert_eq!(ONE, 1.0f32.to_bits());
    assert_eq!(NEG_HALF, (-0.5f32).to_bits());
    assert_eq!(NEG_ONE, (-1.0f32).to_bits());
    assert_eq!(SIGN_BIT, (-0.0f32).to_bits());
}

#[test]
fn a_word_is_encoded_least_significant_byte_first() {
    assert_eq!(words_to_bytes(&[0x1122_3344]), vec![0x44, 0x33, 0x22, 0x11]);
    assert_eq!(words_to_bytes(&[0]), vec![0, 0, 0, 0]);
    assert_eq!(words_to_bytes(&[u32::MAX]), vec![0xFF, 0xFF, 0xFF, 0xFF]);
    assert_eq!(words_to_bytes(&[255, 256]), vec![255, 0, 0, 0, 0, 1, 0, 0]);
}

#[test]
fn a_number_is_encoded_as_the_gpu_reads_it() {
    for x in [0.0f32, 1.0, -1.0, 0.1, 3.5e20, -7.25e-12, f32::MAX, f32::MIN_POSITIVE] {
        assert_eq!(words_to_bytes(&[x.to_bits()]), x.to_le_bytes().to_vec());
    }
}

#[test]
fn no_words_give_no_bytes() {
    assert_eq!(words_to_bytes(&[]), Vec::<u8>::new());
}

#[test]
fn push_word_appends_to_what_is_there() {
    let mut out = vec![9u8];
    push_word(&mut out, 0x0403_0201);
    assert_eq!(out, vec![9, 1, 2, 3, 4]);
    push_words(&mut out, &[5, 0x0600_0000]);
    assert_eq!(out, vec![9, 1, 2, 3, 4, 5, 0, 0, 0, 0, 0, 0, 6]);
}

#[test]
fn indices_take_four_bytes_each() {
    let indices: Vec<u32> = vec![0, 1, 2, 0, 2, 3];
    let bytes = words_to_bytes(&indices);
    assert_eq!(bytes.len(), indices.len() * 4);
    assert_eq!(&bytes[4..8], &1u32.to_le_bytes());
    assert_eq!(&bytes[20..24], &3u32.to_le_bytes());
}

#[test]
fn negate_flips_the_sign_of_the_number() {
    for x in [0.0f32, -0.0, 1.5, -2.25, 0.25, f32::INFINITY, f32::NEG_INFINITY, f32::MAX] {
        assert_eq!(negate(x.to_bits()), (-x).to_bits());
    }
    assert_eq!(negate(0x7FC0_0001), 0xFFC0_0001);
    assert_eq!(negate(u32::MAX), 0x7FFF_FFFF);
}

#[test]
fn abs_clears_the_sign_of_the_number() {
    for x in [0.0f32, -0.0, 1.5, -2.25, -0.25, f32::NEG_INFINITY, f32::MIN] {
        assert_eq!(abs(x.to_bits()), x.abs().to_bits());
    }
    assert_eq!(abs(0xFFC0_0001), 0x7FC0_0001);
}

#[test]
fn the_layout_has_position_normal_and_color_one_after_the_other() {
    let layout = Vertex::desc();
    assert_eq!(layout.array_stride, 36);
    assert_eq!(layout.array_stride, VERTEX_SIZE as u64);
    assert_eq!(layout.step_mode, VertexStepMode::Vertex);
    assert_eq!(
        layout.attributes,
        vec![
            VertexAttribute { offset: 0, shader_location: 0, format: VertexFormat::Float32x3 },
            VertexAttribute { offset: 12, shader_location: 1, format: VertexFormat::Float32x3 },
            VertexAttribute { offset: 24, shader_location: 2, format: VertexFormat::Float32x3 },
        ]
    );
    assert_eq!(ATTRIBUTE_SIZE, 12);
}

#[test]
fn a_vertex_buffer_has_36_bytes_per_vertex() {
    let v = vertex([1.0, 2.0, 3.0], [0.0, 1.0, 0.0], [0.5, 0.25, 0.125]);
    for n in [0usize, 1, 2, 7, 100] {
        let vertices = vec![v; n];
        assert_eq!(Vertex::as_byte_slice(&vertices).len(), n * 36);
    }
}

#[test]
fn a_vertex_buffer_holds_every_number_where_the_layout_says() {
    let vertices = vec![
        vertex([1.0, 2.0, 3.0], [4.0, 5.0, 6.0], [7.0, 8.0, 9.0]),
        vertex([-1.0, -2.0, -3.0], [0.1, 0.2, 0.3], [10.0, 11.0, 12.0]),
    ];
    let bytes = Vertex::as_byte_slice(&vertices);
    let layout = Vertex::desc();
    for (i, v) in vertices.iter().enumerate() {
        let attributes = [v.position, v.normal, v.color];
        for (slot, attribute) in layout.attributes.iter().enumerate() {
            for part in 0..3 {
                let start = i * layout.array_stride as usize + attribute.offset as usize + 4 * part;
                assert_eq!(&bytes[start..start + 4], &attributes[slot][part].to_le_bytes());
            }
        }
    }
    let mut expected: Vec<u8> = Vec::new();
    for x in [
        1.0f32, 2.0, 3.0, 4.0, 5.0, 6.0, 7.0, 8.0, 9.0, -1.0, -2.0, -3.0, 0.1, 0.2, 0.3, 10.0, 11.0,
        12.0,
    ] {
        expected.extend_from_slice(&x.to_le_bytes());
    }
    assert_eq!(bytes, expected);
}
