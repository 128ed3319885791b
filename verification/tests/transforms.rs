use softrender::fx::{Fx, SCALE};
use softrender::matrix::Mat4;
use softrender::shader::{lookat, projection, viewport};
use softrender::vector::{
    project_to_2d, project_to_3d, vectorize_to_3d, vectorize_to_4d, Fx2, Fx3, Fx4,
};

fn fxi(i: i64) -> Fx {
    Fx::from_int(i)
}

fn to_f64(v: Fx) -> f64 {
    v.raw as f64 / SCALE as f64
}

#[test]
fn test_lookat() {
    let eye = Fx3::new(fxi(0), fxi(-1), fxi(3));
    let center = Fx3::new(fxi(0), fxi(0), fxi(0));
    let up = Fx3::new(fxi(0), fxi(1), fxi(0));

    let view = lookat(&eye, &center, &up);

    assert_eq!(to_f64(view.r0.x), 1.0);
    assert_eq!(to_f64(view.r0.y), 0.0);
    assert_eq!(to_f64(view.r0.z), 0.0);
    assert_eq!(to_f64(view.r0.w), 0.0);

    assert_eq!(to_f64(view.r1.x), 0.0);
    assert!(to_f64(view.r1.y) - 0.948683 < 0.0001);
    assert!(to_f64(view.r1.z) - 0.316228 < 0.0001);
    assert_eq!(to_f64(view.r1.w), 0.0);

    assert_eq!(to_f64(view.r2.x), 0.0);
    assert!(to_f64(view.r2.y) - 0.316228 < 0.0001);
    assert!(to_f64(view.r2.z) - 0.948683 < 0.0001);
    assert_eq!(to_f64(view.r2.w), 0.0);

    assert_eq!(to_f64(view.r3.x), 0.0);
    assert_eq!(to_f64(view.r3.y), 0.0);
    assert_eq!(to_f64(view.r3.z), 0.0);
    assert_eq!(to_f64(view.r3.w), 1.0);
}

#[test]
fn test_projection() {
    let eye = Fx3::new(fxi(0), fxi(-1), fxi(3));
    let center = Fx3::new(fxi(0), fxi(0), fxi(0));

    let coefficient = fxi(-1).div(eye.sub(center).norm());
    let view = projection(coefficient);

    assert_eq!(to_f64(view.r0.x), 1.0);
    assert_eq!(to_f64(view.r0.y), 0.0);
    assert_eq!(to_f64(view.r0.z), 0.0);
    assert_eq!(to_f64(view.r0.w), 0.0);

    assert_eq!(to_f64(view.r1.x), 0.0);
    assert_eq!(to_f64(view.r1.y), 1.0);
    assert_eq!(to_f64(view.r1.z), 0.0);
    assert_eq!(to_f64(view.r1.w), 0.0);

    assert_eq!(to_f64(view.r2.x), 0.0);
    assert_eq!(to_f64(view.r2.y), 0.0);
    assert_eq!(to_f64(view.r2.z), 1.0);
    assert_eq!(to_f64(view.r2.w), 0.0);

    assert_eq!(to_f64(view.r3.x), 0.0);
    assert_eq!(to_f64(view.r3.y), 0.0);
    assert!(view.r3.z.raw < 0 && to_f64(view.r3.z).abs() - 0.316228 < 0.0001);
    assert_eq!(to_f64(view.r3.w), 1.0);
}

#[test]
fn test_viewport() {
    let (width, height, depth) = (800u32, 800u32, 255u32);
    let view = viewport(width / 8, height / 8, width * 3 / 4, height * 3 / 4, depth);

    assert_eq!(to_f64(view.r0.x), 300.0);
    assert_eq!(to_f64(view.r0.y), 0.0);
    assert_eq!(to_f64(view.r0.z), 0.0);
    assert_eq!(to_f64(view.r0.w), 400.0);

    assert_eq!(to_f64(view.r1.x), 0.0);
    assert_eq!(to_f64(view.r1.y), 300.0);
    assert_eq!(to_f64(view.r1.z), 0.0);
    assert_eq!(to_f64(view.r1.w), 400.0);

    assert_eq!(to_f64(view.r2.x), 0.0);
    assert_eq!(to_f64(view.r2.y), 0.0);
    assert!(to_f64(view.r2.z) - 127.5 < 0.0001);
    assert!(to_f64(view.r2.w) - 127.5 < 0.0001);

    assert_eq!(to_f64(view.r3.x), 0.0);
    assert_eq!(to_f64(view.r3.y), 0.0);
    assert_eq!(to_f64(view.r3.z), 0.0);
    assert_eq!(to_f64(view.r3.w), 1.0);
}

// The viewport maps the canonical cube's corners exactly: (-1, -1, -1) to
// pixel (0, 0) at depth 0, and (1, 1, 1) to pixel (800, 800) at depth 255.
#[test]
fn viewport_maps_canonical_corners() {
    let view: Mat4 = viewport(0, 0, 800, 800, 255);

    let low = view.mul_vec(Fx4::new(fxi(-1), fxi(-1), fxi(-1), fxi(1)));
    assert_eq!(low.x.raw, 0);
    assert_eq!(low.y.raw, 0);
    assert_eq!(low.z.raw, 0);
    assert_eq!(low.w.raw, SCALE);

    let high = view.mul_vec(Fx4::new(fxi(1), fxi(1), fxi(1), fxi(1)));
    assert_eq!(high.x.raw, 800 * SCALE);
    assert_eq!(high.y.raw, 800 * SCALE);
    assert_eq!(high.z.raw, 255 * SCALE);
    assert_eq!(high.w.raw, SCALE);
}

#[test]
fn test_project_2d() {
    let matrix = Fx3::new(fxi(2), fxi(4), fxi(2));
    let point: Fx2 = project_to_2d(matrix);
    assert!(point.x.raw == SCALE && point.y.raw == 2 * SCALE);
}

#[test]
fn test_project_3d() {
    let matrix = Fx4::new(fxi(2), fxi(4), fxi(6), fxi(2));
    let point: Fx3 = project_to_3d(matrix);
    assert!(point.x.raw == SCALE && point.y.raw == 2 * SCALE && point.z.raw == 3 * SCALE);
}

#[test]
fn test_vectorize_3d() {
    let point = Fx2::new(fxi(1), fxi(2));
    let vector: Fx3 = vectorize_to_3d(point);
    assert!(vector.x.raw == SCALE && vector.y.raw == 2 * SCALE && vector.z.raw == SCALE);
}

#[test]
fn test_vectorize_4d() {
    let point = Fx3::new(fxi(1), fxi(2), fxi(3));
    let vector: Fx4 = vectorize_to_4d(point);
    assert!(
        vector.x.raw == SCALE
            && vector.y.raw == 2 * SCALE
            && vector.z.raw == 3 * SCALE
            && vector.w.raw == SCALE
    );
}

// The fixed-point scalar operations on a few exact cases.
#[test]
fn fx_arithmetic_exact_cases() {
    assert_eq!(fxi(3).add(fxi(4)).raw, 7 * SCALE);
    assert_eq!(fxi(3).sub(fxi(4)).raw, -SCALE);
    assert_eq!(fxi(3).mul(fxi(4)).raw, 12 * SCALE);
    assert_eq!(fxi(12).div(fxi(4)).raw, 3 * SCALE);
    assert_eq!(fxi(-3).abs().raw, 3 * SCALE);
    assert_eq!(fxi(-3).neg().raw, 3 * SCALE);
    assert_eq!(fxi(-3).max(fxi(2)).raw, 2 * SCALE);
    assert_eq!(fxi(7).trunc(), 7);
    assert_eq!(Fx::from_raw(3 * SCALE / 2).trunc(), 1);
    // Division truncates toward zero, as the original float-to-int casts do.
    assert_eq!(fxi(-3).div(fxi(2)).raw, -3 * SCALE / 2);
    // A zero divisor saturates instead of panicking.
    assert_eq!(fxi(1).div(fxi(0)).raw, i64::MAX);
    assert_eq!(fxi(-1).div(fxi(0)).raw, i64::MIN);
}

// The norm is the integer square root of the summed squares: a 3-4-5
// triangle comes out exactly.
#[test]
fn fx3_norm_exact_cases() {
    let v = Fx3::new(fxi(3), fxi(4), fxi(0));
    assert_eq!(v.norm().raw, 5 * SCALE);
    let n = v.normalize();
    assert_eq!(n.x.raw, 3 * SCALE / 5);
    assert_eq!(n.y.raw, 4 * SCALE / 5);
    assert_eq!(n.z.raw, 0);
}
