use objscene::matrix::Mat4;
use objscene::mesh::{Mesh, RawModel};
use objscene::render::{RenderCommand, ShaderLocations};
use objscene::scene::Scene;

const CUBE_OBJ: &str = "\
v -1 -1 -1
v 1 -1 -1
v 1 1 -1
v -1 1 -1
v -1 -1 1
v 1 -1 1
v 1 1 1
v -1 1 1
f 1 3 2
f 1 4 3
f 5 6 7
f 5 7 8
f 1 2 6
f 1 6 5
f 2 3 7
f 2 7 6
f 3 4 8
f 3 8 7
f 4 1 5
f 4 5 8
";

const TRIANGLE_OBJ: &str = "\
v 0 0 0
v 1 0 0
v 0 1 0
f 1 2 3
";

/// Parses OBJ text through the external loader and hands the library its
/// raw arrays, the way the render driver does for OBJ files on disk.
fn parse(text: &str) -> Vec<RawModel> {
    let mut reader = text.as_bytes();
    let (models, _) = tobj::load_obj_buf(
        &mut reader,
        &tobj::LoadOptions { triangulate: true, single_index: true, ..Default::default() },
        |_| Err(tobj::LoadError::OpenFileFailed),
    )
    .unwrap();
    models
        .iter()
        .map(|m| RawModel {
            positions: m.mesh.positions.iter().map(|v| v.to_bits()).collect(),
            normals: m.mesh.normals.iter().map(|v| v.to_bits()).collect(),
            texcoords: m.mesh.texcoords.iter().map(|v| v.to_bits()).collect(),
            face_indices: m.mesh.indices.clone(),
        })
        .collect()
}

#[test]
fn unit_cube_expands_to_thirty_six_vertices() {
    let models = parse(CUBE_OBJ);
    let total: usize = models.iter().map(|m| m.face_indices.len()).sum();
    assert_eq!(total, 36);
    let mesh = Mesh::from_models(&models).unwrap();
    assert_eq!(mesh.vertices.len(), 36);
    assert_eq!(mesh.indices, (0u32..36).collect::<Vec<u32>>());
}

#[test]
fn cube_scene_draws_all_thirty_six_vertices() {
    let mesh = Mesh::from_models(&parse(CUBE_OBJ)).unwrap();
    let mut scene = Scene::new(1, 2, Mat4::identity(), Mat4::identity());
    scene.add_mesh(mesh, 3);
    assert_eq!(scene.mesh_count(), 1);
    assert_eq!(scene.buffer_count(), 1);
    let cmds = scene.draw_commands(&ShaderLocations::none_found(), 0);
    assert!(cmds
        .iter()
        .any(|c| *c == RenderCommand::DrawTriangles { first: 0, count: 36 }));
}

#[test]
fn triangle_gets_one_shared_recovered_normal() {
    let models = parse(TRIANGLE_OBJ);
    let mut mesh = Mesh::from_models(&models).unwrap();
    assert_eq!(mesh.vertices.len(), 3);
    assert!(mesh.needs_flat_normals());
    // One triangle: compute its flat normal as the render driver does.
    let corners = mesh.triangle_positions();
    assert_eq!(corners.len(), 1);
    let (a, b, c) = &corners[0];
    let va = nalgebra::Vector3::new(
        f32::from_bits(a.x),
        f32::from_bits(a.y),
        f32::from_bits(a.z),
    );
    let vb = nalgebra::Vector3::new(
        f32::from_bits(b.x),
        f32::from_bits(b.y),
        f32::from_bits(b.z),
    );
    let vc = nalgebra::Vector3::new(
        f32::from_bits(c.x),
        f32::from_bits(c.y),
        f32::from_bits(c.z),
    );
    let n = (vb - va).cross(&(vc - va)).normalize();
    let applied = mesh.apply_flat_normals_if_needed(&vec![objscene::bits::Vec3 {
        x: n.x.to_bits(),
        y: n.y.to_bits(),
        z: n.z.to_bits(),
    }]);
    assert!(applied);
    let first = (mesh.vertices[0].nx, mesh.vertices[0].ny, mesh.vertices[0].nz);
    for v in mesh.vertices.iter() {
        assert_eq!((v.nx, v.ny, v.nz), first);
    }
    assert!((n.norm() - 1.0).abs() < 1e-6);
}
