use emyrenderer::camera::{look_at_rh, perspective_lh, viewport_matrix, Camera};
use emyrenderer::fixed::SCALE;
use emyrenderer::vecmath::{Fx3, Fx4, Mat4};

#[test]
fn viewport_matrix_maps_ndc_to_pixels() {
    let m = viewport_matrix(0, 0, 4 * SCALE, 4 * SCALE, SCALE);
    assert_eq!(m.c0, Fx4::new(2 * SCALE, 0, 0, 0));
    assert_eq!(m.c1, Fx4::new(0, 2 * SCALE, 0, 0));
    assert_eq!(m.c2, Fx4::new(0, 0, SCALE / 2, 0));
    assert_eq!(m.c3, Fx4::new(2 * SCALE, 2 * SCALE, SCALE / 2, SCALE));
    // NDC (1, 1, 1) lands at pixel (4, 4) with depth 1.
    let p = m.mul_v4(Fx4::new(SCALE, SCALE, SCALE, SCALE));
    assert_eq!(p, Fx4::new(4 * SCALE, 4 * SCALE, SCALE, SCALE));
    // NDC (-1, -1, -1) lands at pixel (0, 0) with depth 0; the NDC z of 0
    // sits halfway into the depth range.
    let q = m.mul_v4(Fx4::new(-SCALE, -SCALE, -SCALE, SCALE));
    assert_eq!(q, Fx4::new(0, 0, 0, SCALE));
    let h = m.mul_v4(Fx4::new(-SCALE, -SCALE, 0, SCALE));
    assert_eq!(h.z, SCALE / 2);
}

#[test]
fn look_at_from_the_default_eye_is_axis_aligned() {
    let eye = Fx3::new(0, 0, SCALE);
    let m = look_at_rh(eye, Fx3::zero(), Fx3::new(0, SCALE, 0));
    assert_eq!(m.c0, Fx4::new(SCALE, 0, 0, 0));
    assert_eq!(m.c1, Fx4::new(0, SCALE, 0, 0));
    assert_eq!(m.c2, Fx4::new(0, 0, SCALE, 0));
    assert_eq!(m.c3, Fx4::new(0, 0, -SCALE, SCALE));
}

#[test]
fn perspective_projects_the_optical_axis_to_the_center() {
    // Square aspect, cot(fov/2) = 2 for a simple check.
    let m = perspective_lh(2 * SCALE, SCALE, SCALE, 3 * SCALE);
    assert_eq!(m.c0, Fx4::new(2 * SCALE, 0, 0, 0));
    assert_eq!(m.c1, Fx4::new(0, 2 * SCALE, 0, 0));
    // r = far / (far - near) = 1.5
    assert_eq!(m.c2, Fx4::new(0, 0, 98304, SCALE));
    // -r * near = -1.5
    assert_eq!(m.c3, Fx4::new(0, 0, -98304, 0));
    // A point on the axis at the far plane maps to w = z = 3 (depth 1 after divide).
    let p = m.mul_v4(Fx4::new(0, 0, 3 * SCALE, SCALE));
    assert_eq!(p.w, 3 * SCALE);
    assert_eq!(p.z, 3 * SCALE);
}

#[test]
fn new_camera_looks_down_the_z_axis() {
    let cam = Camera::new(4, 4);
    assert_eq!(cam.position, Fx3::new(0, 0, SCALE));
    let expect_view = look_at_rh(Fx3::new(0, 0, SCALE), Fx3::zero(), Fx3::new(0, SCALE, 0));
    assert_eq!(cam.view, expect_view);
    let expect_vp = viewport_matrix(0, 0, 4 * SCALE, 4 * SCALE, SCALE);
    assert_eq!(cam.viewport, expect_vp);
    // cot(30 degrees) = sqrt(3) at fixed-point resolution.
    assert_eq!(cam.projection.c1.y, 113511);
}

#[test]
fn look_at_updates_view_and_position_only() {
    let mut cam = Camera::new(4, 4);
    let proj: Mat4 = cam.projection;
    let vp: Mat4 = cam.viewport;
    let eye = Fx3::new(2 * SCALE, 0, 0);
    cam.look_at(eye, Fx3::zero(), Fx3::new(0, SCALE, 0));
    assert_eq!(cam.position, eye);
    assert_eq!(cam.projection, proj);
    assert_eq!(cam.viewport, vp);
    let expect = look_at_rh(eye, Fx3::zero(), Fx3::new(0, SCALE, 0));
    assert_eq!(cam.view, expect);
}
