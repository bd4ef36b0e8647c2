use objscene::bits::ONE_BITS;
use objscene::matrix::Mat4;
use objscene::mesh::{LoadError, Mesh, RawModel};

fn bits(v: f32) -> u32 {
    v.to_bits()
}

fn raw(positions: &[f32], normals: &[f32], texcoords: &[f32], face_indices: &[u32]) -> RawModel {
    RawModel {
        positions: positions.iter().map(|v| v.to_bits()).collect(),
        normals: normals.iter().map(|v| v.to_bits()).collect(),
        texcoords: texcoords.iter().map(|v| v.to_bits()).collect(),
        face_indices: face_indices.to_vec(),
    }
}

#[test]
fn expansion_counts_and_identity_indices() {
    // Two triangles sharing vertices of a quad: 6 face indices.
    let model = raw(
        &[
            0.0, 0.0, 0.0, //
            1.0, 0.0, 0.0, //
            1.0, 1.0, 0.0, //
            0.0, 1.0, 0.0,
        ],
        &[],
        &[],
        &[0, 1, 2, 0, 2, 3],
    );
    let mesh = Mesh::from_models(&vec![model]).unwrap();
    assert_eq!(mesh.vertices.len(), 6);
    assert_eq!(mesh.indices, vec![0u32, 1, 2, 3, 4, 5]);
}

#[test]
fn expansion_gathers_positions_by_face_index() {
    let model = raw(
        &[
            10.0, 11.0, 12.0, //
            20.0, 21.0, 22.0,
        ],
        &[],
        &[],
        &[1, 0, 1],
    );
    let mesh = Mesh::from_models(&vec![model]).unwrap();
    assert_eq!(mesh.vertices[0].px, bits(20.0));
    assert_eq!(mesh.vertices[0].py, bits(21.0));
    assert_eq!(mesh.vertices[0].pz, bits(22.0));
    assert_eq!(mesh.vertices[1].px, bits(10.0));
    assert_eq!(mesh.vertices[2].px, bits(20.0));
}

#[test]
fn expansion_defaults_missing_normals_and_texcoords_to_zero() {
    let model = raw(
        &[
            1.0, 2.0, 3.0, //
            4.0, 5.0, 6.0,
        ],
        // Normals cover only the first source vertex.
        &[0.5, 0.5, 0.5],
        // Texcoords cover only the first source vertex.
        &[0.25, 0.75],
        &[0, 1, 0],
    );
    let mesh = Mesh::from_models(&vec![model]).unwrap();
    assert_eq!(mesh.vertices[0].nx, bits(0.5));
    assert_eq!(mesh.vertices[0].tu, bits(0.25));
    assert_eq!(mesh.vertices[0].tv, bits(0.75));
    // Source vertex 1 has no normal or texcoord: all components zero.
    assert_eq!(mesh.vertices[1].nx, 0);
    assert_eq!(mesh.vertices[1].ny, 0);
    assert_eq!(mesh.vertices[1].nz, 0);
    assert_eq!(mesh.vertices[1].tu, 0);
    assert_eq!(mesh.vertices[1].tv, 0);
}

#[test]
fn expansion_concatenates_models_in_order() {
    let a = raw(&[1.0, 1.0, 1.0], &[], &[], &[0, 0, 0]);
    let b = raw(&[2.0, 2.0, 2.0], &[], &[], &[0]);
    let mesh = Mesh::from_models(&vec![a, b]).unwrap();
    assert_eq!(mesh.vertices.len(), 4);
    assert_eq!(mesh.vertices[2].px, bits(1.0));
    assert_eq!(mesh.vertices[3].px, bits(2.0));
    assert_eq!(mesh.indices, vec![0u32, 1, 2, 3]);
}

#[test]
fn expansion_rejects_face_index_without_position() {
    let model = raw(&[1.0, 2.0, 3.0], &[], &[], &[0, 1]);
    let r = Mesh::from_models(&vec![model]);
    assert_eq!(r.unwrap_err(), LoadError::FaceIndexOutOfRange);
}

#[test]
fn expansion_of_no_models_is_empty() {
    let mesh = Mesh::from_models(&Vec::new()).unwrap();
    assert_eq!(mesh.vertices.len(), 0);
    assert_eq!(mesh.indices.len(), 0);
}

#[test]
fn new_mesh_has_identity_transform_and_unit_scale() {
    let mesh = Mesh::new();
    assert_eq!(mesh.vertices.len(), 0);
    assert_eq!(mesh.indices.len(), 0);
    assert_eq!(mesh.scale, ONE_BITS);
    assert_eq!(mesh.scale, 1.0f32.to_bits());
    assert_eq!(mesh.translate, Mat4::identity());
    assert_eq!(mesh.rotate, Mat4::identity());
}
