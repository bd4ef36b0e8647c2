use objscene::bits::Vec3;
use objscene::matrix::{Mat3, Mat4};

fn to_na4(m: &Mat4) -> nalgebra::Matrix4<f32> {
    let floats: Vec<f32> = m
        .entries_column_major()
        .iter()
        .map(|b| f32::from_bits(*b))
        .collect();
    nalgebra::Matrix4::from_column_slice(&floats)
}

fn to_na3(m: &Mat3) -> nalgebra::Matrix3<f32> {
    let floats: Vec<f32> = m
        .entries_column_major()
        .iter()
        .map(|b| f32::from_bits(*b))
        .collect();
    nalgebra::Matrix3::from_column_slice(&floats)
}

fn mat4_from_na(m: &nalgebra::Matrix4<f32>) -> Mat4 {
    let s = m.as_slice();
    Mat4 {
        c0r0: s[0].to_bits(),
        c0r1: s[1].to_bits(),
        c0r2: s[2].to_bits(),
        c0r3: s[3].to_bits(),
        c1r0: s[4].to_bits(),
        c1r1: s[5].to_bits(),
        c1r2: s[6].to_bits(),
        c1r3: s[7].to_bits(),
        c2r0: s[8].to_bits(),
        c2r1: s[9].to_bits(),
        c2r2: s[10].to_bits(),
        c2r3: s[11].to_bits(),
        c3r0: s[12].to_bits(),
        c3r1: s[13].to_bits(),
        c3r2: s[14].to_bits(),
        c3r3: s[15].to_bits(),
    }
}

fn mat3_from_na(m: &nalgebra::Matrix3<f32>) -> Mat3 {
    let s = m.as_slice();
    Mat3 {
        c0r0: s[0].to_bits(),
        c0r1: s[1].to_bits(),
        c0r2: s[2].to_bits(),
        c1r0: s[3].to_bits(),
        c1r1: s[4].to_bits(),
        c1r2: s[5].to_bits(),
        c2r0: s[6].to_bits(),
        c2r1: s[7].to_bits(),
        c2r2: s[8].to_bits(),
    }
}

#[test]
fn identity_matches_reference() {
    assert_eq!(to_na4(&Mat4::identity()), nalgebra::Matrix4::identity());
}

#[test]
fn scaling_matches_reference() {
    let s = Mat4::scaling(2.0f32.to_bits());
    assert_eq!(to_na4(&s), nalgebra::Matrix4::new_scaling(2.0));
}

#[test]
fn translation_matches_reference() {
    let t = Mat4::translation(Vec3 {
        x: 1.0f32.to_bits(),
        y: (-2.0f32).to_bits(),
        z: 3.0f32.to_bits(),
    });
    assert_eq!(
        to_na4(&t),
        nalgebra::Matrix4::new_translation(&nalgebra::Vector3::new(1.0, -2.0, 3.0))
    );
}

#[test]
fn model_matrix_composition_moves_reference_point() {
    // Decomposed transform: translate = identity, rotate = a quarter
    // turn about the y axis, scale = 2. The model matrix is the product
    // translate * rotate * scaling, composed by the render driver the
    // same way as here.
    let translate = to_na4(&Mat4::identity());
    let rotate = nalgebra::Rotation3::from_axis_angle(
        &nalgebra::Vector3::y_axis(),
        std::f32::consts::FRAC_PI_2,
    )
    .to_homogeneous();
    let scale_diag = to_na4(&Mat4::scaling(2.0f32.to_bits()));
    let model = translate * rotate * scale_diag;
    let moved = model.transform_point(&nalgebra::Point3::new(1.0, 0.0, 0.0));
    assert!((moved.x - 0.0).abs() < 1e-6);
    assert!((moved.y - 0.0).abs() < 1e-6);
    assert!((moved.z - (-2.0)).abs() < 1e-6);
}

#[test]
fn transpose_swaps_entries_and_is_involutive() {
    let m = Mat3 {
        c0r0: 1.0f32.to_bits(),
        c0r1: 2.0f32.to_bits(),
        c0r2: 3.0f32.to_bits(),
        c1r0: 4.0f32.to_bits(),
        c1r1: 5.0f32.to_bits(),
        c1r2: 6.0f32.to_bits(),
        c2r0: 7.0f32.to_bits(),
        c2r1: 8.0f32.to_bits(),
        c2r2: 9.0f32.to_bits(),
    };
    assert_eq!(to_na3(&m.transpose()), to_na3(&m).transpose());
    assert_eq!(m.transpose().transpose(), m);
}

#[test]
fn upper3x3_extracts_the_upper_left_block() {
    let na = nalgebra::Matrix4::new_translation(&nalgebra::Vector3::new(9.0, 9.0, 9.0))
        * nalgebra::Matrix4::new_scaling(3.0);
    let block = mat4_from_na(&na).upper3x3();
    assert_eq!(to_na3(&block), na.fixed_resize::<3, 3>(0.0));
}

#[test]
fn normal_matrix_of_uniform_scaled_rotation() {
    // Normal matrix = transpose(inverse(upper3x3(model))). For an
    // orthonormal rotation with uniform scale s it equals the rotation
    // scaled by 1/s. The structural steps (extracting the block,
    // transposing) are the library's; the inversion is the driver's.
    let s = 2.0f32;
    let rotation = nalgebra::Rotation3::from_axis_angle(
        &nalgebra::Vector3::y_axis(),
        std::f32::consts::FRAC_PI_6,
    );
    let model = rotation.to_homogeneous() * nalgebra::Matrix4::new_scaling(s);
    let upper = mat4_from_na(&model).upper3x3();
    let inverted = to_na3(&upper).try_inverse().unwrap();
    let normal_matrix = to_na3(&mat3_from_na(&inverted).transpose());
    let expected = rotation.to_homogeneous().fixed_resize::<3, 3>(0.0) / s;
    assert!((normal_matrix - expected).norm() < 1e-6);
}
