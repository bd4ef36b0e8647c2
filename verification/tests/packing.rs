use objscene::vertex::{
    pack_vertices, Vertex, NORMAL_COMPONENTS, NORMAL_OFFSET, POSITION_COMPONENTS, POSITION_OFFSET,
    TEXCOORD_COMPONENTS, TEXCOORD_OFFSET, VERTEX_STRIDE,
};

fn vertex(p: [f32; 3], n: [f32; 3], t: [f32; 2]) -> Vertex {
    Vertex {
        px: p[0].to_bits(),
        py: p[1].to_bits(),
        pz: p[2].to_bits(),
        nx: n[0].to_bits(),
        ny: n[1].to_bits(),
        nz: n[2].to_bits(),
        tu: t[0].to_bits(),
        tv: t[1].to_bits(),
    }
}

#[test]
fn packed_buffer_has_one_stride_per_vertex() {
    let vs = vec![
        vertex([1.0, 2.0, 3.0], [0.0, 1.0, 0.0], [0.5, 0.5]),
        vertex([4.0, 5.0, 6.0], [1.0, 0.0, 0.0], [0.0, 1.0]),
    ];
    let bytes = pack_vertices(&vs);
    assert_eq!(bytes.len(), 2 * VERTEX_STRIDE as usize);
}

#[test]
fn packed_bytes_are_little_endian_fields_in_order() {
    let v = vertex([1.5, -2.0, 3.25], [0.0, -0.0, 1.0], [0.125, 0.875]);
    let bytes = pack_vertices(&vec![v]);
    let fields: [f32; 8] = [1.5, -2.0, 3.25, 0.0, -0.0, 1.0, 0.125, 0.875];
    for (k, f) in fields.iter().enumerate() {
        assert_eq!(&bytes[4 * k..4 * k + 4], &f.to_le_bytes());
    }
}

#[test]
fn attribute_offsets_address_their_fields() {
    let v = vertex([1.0, 2.0, 3.0], [4.0, 5.0, 6.0], [7.0, 8.0]);
    let bytes = pack_vertices(&vec![v, v]);
    for stride_start in [0usize, VERTEX_STRIDE as usize] {
        let p = stride_start + POSITION_OFFSET as usize;
        assert_eq!(&bytes[p..p + 4], &1.0f32.to_le_bytes());
        let n = stride_start + NORMAL_OFFSET as usize;
        assert_eq!(&bytes[n..n + 4], &4.0f32.to_le_bytes());
        let t = stride_start + TEXCOORD_OFFSET as usize;
        assert_eq!(&bytes[t..t + 4], &7.0f32.to_le_bytes());
    }
}

#[test]
fn layout_constants_tile_the_stride() {
    assert_eq!(POSITION_OFFSET + 4 * POSITION_COMPONENTS, NORMAL_OFFSET);
    assert_eq!(NORMAL_OFFSET + 4 * NORMAL_COMPONENTS, TEXCOORD_OFFSET);
    assert_eq!(TEXCOORD_OFFSET + 4 * TEXCOORD_COMPONENTS, VERTEX_STRIDE);
}

#[test]
fn packing_no_vertices_gives_no_bytes() {
    assert_eq!(pack_vertices(&Vec::new()).len(), 0);
}
