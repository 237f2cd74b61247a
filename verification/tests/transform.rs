use glam::{Mat4, Quat, Vec3};
use morrigu::transform::Transform;

fn v(x: f32, y: f32, z: f32) -> [u32; 3] {
    [x.to_bits(), y.to_bits(), z.to_bits()]
}

fn q(r: Quat) -> [u32; 4] {
    r.to_array().map(f32::to_bits)
}

fn m(mat: Mat4) -> [u32; 16] {
    mat.to_cols_array().map(f32::to_bits)
}

#[test]
fn default_transform_is_identity() {
    let mut t = Transform::default();
    assert_eq!(*t.translation(), v(0.0, 0.0, 0.0));
    assert_eq!(*t.rotation(), q(Quat::IDENTITY));
    assert_eq!(*t.scale(), v(1.0, 1.0, 1.0));
    assert_eq!(t.matrix(), m(Mat4::IDENTITY));
}

#[test]
fn setters_set_and_matrix_follows() {
    let mut t = Transform::new();
    t.set_translation(&v(1.0, 2.0, 3.0));
    t.set_rotation(&q(Quat::from_rotation_y(0.5)));
    t.set_scale(&v(2.0, 2.0, 2.0));
    assert_eq!(*t.translation(), v(1.0, 2.0, 3.0));
    assert_eq!(*t.rotation(), q(Quat::from_rotation_y(0.5)));
    assert_eq!(*t.scale(), v(2.0, 2.0, 2.0));
    let expected = Mat4::from_scale_rotation_translation(Vec3::splat(2.0), Quat::from_rotation_y(0.5), Vec3::new(1.0, 2.0, 3.0));
    // the kept matrix is stale until the matrix is asked for
    assert_eq!(t.cached_matrix(), m(Mat4::IDENTITY));
    assert_eq!(t.matrix(), m(expected));
    assert_eq!(t.cached_matrix(), m(expected));
    assert_eq!(t.matrix(), m(expected));
}

#[test]
fn translate_adds() {
    let mut t = Transform::new();
    t.translate(&v(1.0, 2.0, 3.0));
    t.translate(&v(0.5, 0.5, 0.5));
    assert_eq!(*t.translation(), v(1.5, 2.5, 3.5));
}

#[test]
fn rescale_multiplies() {
    let mut t = Transform::new();
    t.rescale(&v(0.3, 0.3, 0.3));
    t.rescale(&v(2.0, 1.0, 4.0));
    let expected = Vec3::ONE * Vec3::splat(0.3) * Vec3::new(2.0, 1.0, 4.0);
    assert_eq!(*t.scale(), expected.to_array().map(f32::to_bits));
}

#[test]
fn rotate_composes_quaternions() {
    let mut t = Transform::new();
    let a = Quat::from_rotation_x(-1.2);
    let b = Quat::from_rotation_z(0.3);
    t.rotate(&q(a));
    t.rotate(&q(b));
    assert_eq!(*t.rotation(), q(Quat::IDENTITY * a * b));
}

#[test]
fn from_matrix_keeps_matrix() {
    let mat = Mat4::from_scale_rotation_translation(Vec3::new(1.0, 2.0, 3.0), Quat::from_rotation_x(0.25), Vec3::new(4.0, 5.0, 6.0));
    let mut t = Transform::from_matrix(m(mat));
    assert_eq!(t.matrix(), m(mat));
    let (s, r, tr) = mat.to_scale_rotation_translation();
    assert_eq!(*t.scale(), s.to_array().map(f32::to_bits));
    assert_eq!(*t.rotation(), q(r));
    assert_eq!(*t.translation(), tr.to_array().map(f32::to_bits));
}

#[test]
fn combine_multiplies_matrices() {
    let mut a = Transform::new();
    a.set_translation(&v(1.0, 0.0, 0.0));
    let mut b = Transform::new();
    b.set_scale(&v(2.0, 2.0, 2.0));
    let ma: Mat4 = Mat4::from_cols_array(&a.clone().matrix().map(f32::from_bits));
    let mb: Mat4 = Mat4::from_cols_array(&b.clone().matrix().map(f32::from_bits));
    let mut c = a.combine(b);
    let expected = Mat4::from_translation(Vec3::new(1.0, 0.0, 0.0)) * Mat4::from_scale(Vec3::splat(2.0));
    assert_eq!(c.matrix(), m(ma * mb));
    assert_eq!(c.matrix(), m(expected));
}

#[test]
fn nan_results_are_carried_through() {
    let mut t = Transform::new();
    t.translate(&v(f32::INFINITY, 0.0, 0.0));
    t.translate(&v(f32::NEG_INFINITY, 0.0, 0.0));
    assert!(f32::from_bits(t.translation()[0]).is_nan());
    assert!(f32::from_bits(t.matrix()[12]).is_nan());
}
