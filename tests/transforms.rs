use glm::ext::{rotate, translate};

fn identity() -> glm::Matrix4<f32> {
    glm::Matrix4::<f32>::new(
        glm::Vector4::<f32>::new(1.0, 0.0, 0.0, 0.0),
        glm::Vector4::<f32>::new(0.0, 1.0, 0.0, 0.0),
        glm::Vector4::<f32>::new(0.0, 0.0, 1.0, 0.0),
        glm::Vector4::<f32>::new(0.0, 0.0, 0.0, 1.0),
    )
}

fn close(a: &glm::Matrix4<f32>, b: &glm::Matrix4<f32>) -> bool {
    (0..4).all(|c| {
        let (x, y) = (a[c], b[c]);
        (x.x - y.x).abs() < 1e-5 && (x.y - y.y).abs() < 1e-5 && (x.z - y.z).abs() < 1e-5 && (x.w - y.w).abs() < 1e-5
    })
}

fn z_axis() -> glm::Vector3<f32> {
    glm::Vector3::<f32>::new(0.0, 0.0, 1.0)
}

#[test]
fn rotation_angle_is_given_in_degrees() {
    // Shapes take degrees and hand glm the radians it expects: a quarter turn
    // about Z takes the X axis to the Y axis.
    let m = rotate(&identity(), 90.0f32.to_radians(), z_axis());
    assert!(m[0].x.abs() < 1e-6);
    assert!((m[0].y - 1.0).abs() < 1e-6);
}

#[test]
fn translate_then_inverse_restores_matrix() {
    let start = rotate(&identity(), 30.0f32.to_radians(), z_axis());
    let moved = translate(&start, glm::Vector3::<f32>::new(0.25, -1.5, 0.0));
    let back = translate(&moved, glm::Vector3::<f32>::new(-0.25, 1.5, 0.0));
    assert!(!close(&moved, &start));
    assert!(close(&back, &start));
}

#[test]
fn rotation_then_inverse_is_identity() {
    let turned = rotate(&identity(), 37.0f32.to_radians(), z_axis());
    let back = rotate(&turned, (-37.0f32).to_radians(), z_axis());
    assert!(!close(&turned, &identity()));
    assert!(close(&back, &identity()));
}
