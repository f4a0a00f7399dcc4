use emyrenderer::fixed::SCALE;
use emyrenderer::vecmath::{Fx2, Fx3, Fx4, Mat3, Mat4};

#[test]
fn dot_and_cross_follow_the_usual_formulas() {
    let a = Fx3::new(SCALE, 2 * SCALE, 3 * SCALE);
    let b = Fx3::new(4 * SCALE, -5 * SCALE, 6 * SCALE);
    // 4 - 10 + 18 = 12
    assert_eq!(a.dot(b), 12 * SCALE);
    // (2*6 - 3*(-5), 3*4 - 1*6, 1*(-5) - 2*4) = (27, 6, -13)
    assert_eq!(a.cross(b), Fx3::new(27 * SCALE, 6 * SCALE, -13 * SCALE));
}

#[test]
fn length_and_normalize_on_a_pythagorean_vector() {
    let v = Fx3::new(3 * SCALE, 4 * SCALE, 0);
    assert_eq!(v.length(), 5 * SCALE);
    let n = v.normalized();
    // 0.6 and 0.8, truncated at raw resolution
    assert_eq!(n, Fx3::new(39321, 52428, 0));
}

#[test]
fn normalize_of_the_zero_vector_is_zero() {
    assert_eq!(Fx3::zero().normalized(), Fx3::zero());
}

#[test]
fn componentwise_ops_work() {
    let a = Fx2::new(SCALE, 2 * SCALE);
    let b = Fx2::new(3 * SCALE, 5 * SCALE);
    assert_eq!(a.add(b), Fx2::new(4 * SCALE, 7 * SCALE));
    assert_eq!(b.sub(a), Fx2::new(2 * SCALE, 3 * SCALE));
    assert_eq!(a.scale(2 * SCALE), Fx2::new(2 * SCALE, 4 * SCALE));
    let c = Fx3::new(SCALE, 2 * SCALE, 3 * SCALE);
    assert_eq!(c.cmul(c), Fx3::new(SCALE, 4 * SCALE, 9 * SCALE));
    assert_eq!(c.neg(), Fx3::new(-SCALE, -2 * SCALE, -3 * SCALE));
}

#[test]
fn vec4_length_uses_all_four_components() {
    // 1^2 + 1^2 + 1^2 + 1^2 = 4, sqrt = 2
    let v = Fx4::new(SCALE, SCALE, SCALE, SCALE);
    assert_eq!(v.length(), 2 * SCALE);
    assert_eq!(v.xyz(), Fx3::new(SCALE, SCALE, SCALE));
}

#[test]
fn identity_matrix_fixes_vectors() {
    let v = Fx4::new(123456, -654321, 42, SCALE);
    assert_eq!(Mat4::identity().mul_v4(v), v);
    let m = Mat4::identity().mul_m4(Mat4::identity());
    assert_eq!(m, Mat4::identity());
}

#[test]
fn mat3_applies_columns_by_weight() {
    let m = Mat3::from_cols(
        Fx3::new(SCALE, 0, 0),
        Fx3::new(0, 2 * SCALE, 0),
        Fx3::new(0, 0, 4 * SCALE),
    );
    let v = Fx3::new(3 * SCALE, 5 * SCALE, 7 * SCALE);
    assert_eq!(m.mul_v3(v), Fx3::new(3 * SCALE, 10 * SCALE, 28 * SCALE));
}
