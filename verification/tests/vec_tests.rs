use raytracing::fixed::Fx;
use raytracing::fixed::MAX_RAW;
use raytracing::vec3::cross;
use raytracing::vec3::dot;
use raytracing::vec3::Vec3;

fn v(x: i64, y: i64, z: i64) -> Vec3 {
    Vec3 { x: Fx::from_int(x), y: Fx::from_int(y), z: Fx::from_int(z) }
}

#[test]
fn test_cross() {
    let u = v(1, 0, 0);
    let w = v(0, 0, -1);
    assert_eq!(cross(u, w), v(0, 1, 0));
}

#[test]
fn test_cross_antisymmetric() {
    let a = Vec3 { x: Fx::from_ratio(3, 2), y: Fx::from_int(-2), z: Fx::from_ratio(7, 10) };
    let b = Vec3 { x: Fx::from_int(4), y: Fx::from_ratio(1, 3), z: Fx::from_int(-5) };
    assert_eq!(cross(a, b), cross(b, a).neg());
}

#[test]
fn test_add_sub_cancel() {
    let a = Vec3 { x: Fx::from_ratio(22, 7), y: Fx::from_int(-100), z: Fx::from_ratio(1, 3) };
    let b = Vec3 { x: Fx::from_int(500), y: Fx::from_ratio(-3, 2), z: Fx::from_int(9) };
    assert_eq!(a.add(b).sub(b), a);
}

#[test]
fn test_unit_has_unit_length() {
    let a = v(3, 4, 12);
    let u = a.unit();
    let d = dot(u, u);
    // within one-and-a-bit representable steps of 1
    assert!((d.raw - 65536).abs() <= 132, "dot(unit, unit) = {} raw", d.raw);
}

#[test]
fn test_dot_values() {
    assert_eq!(dot(v(1, 2, 3), v(4, -5, 6)).raw, Fx::from_int(12).raw);
    assert_eq!(dot(v(1, 0, 0), v(0, 1, 0)).raw, 0);
}

#[test]
fn test_length() {
    assert_eq!(v(3, 4, 0).length(), Fx::from_int(5));
    assert_eq!(v(0, 0, 0).length().raw, 0);
}

#[test]
fn test_fixed_mul_truncates_toward_zero() {
    // 1.5 * 1.5 = 2.25
    let x = Fx::from_ratio(3, 2);
    assert_eq!(x.mul(x).raw, 147456);
    // (-1.5) * 1.5 = -2.25
    assert_eq!(x.neg().mul(x).raw, -147456);
    // (1/3) * 3 rounds down to just below 1
    let third = Fx::from_ratio(1, 3);
    assert_eq!(third.mul(Fx::from_int(3)).raw, 65535);
}

#[test]
fn test_fixed_div() {
    assert_eq!(Fx::from_int(7).div(Fx::from_int(2)), Fx::from_ratio(7, 2));
    assert_eq!(Fx::from_int(-7).div(Fx::from_int(2)).raw, -229376);
    // division by zero saturates with the sign of the dividend
    assert_eq!(Fx::from_int(1).div(Fx::from_int(0)).raw, MAX_RAW);
    assert_eq!(Fx::from_int(-1).div(Fx::from_int(0)).raw, -MAX_RAW);
}

#[test]
fn test_fixed_sqrt() {
    assert_eq!(Fx::from_int(4).sqrt(), Fx::from_int(2));
    assert_eq!(Fx::from_int(9).sqrt(), Fx::from_int(3));
    assert_eq!(Fx::from_int(0).sqrt().raw, 0);
    assert_eq!(Fx::from_int(-9).sqrt().raw, 0);
    // sqrt(2) rounded down to the nearest representable value
    assert_eq!(Fx::from_int(2).sqrt().raw, 92681);
}

#[test]
fn test_fixed_saturation() {
    let big = Fx { raw: MAX_RAW };
    assert_eq!(big.add(big).raw, MAX_RAW);
    assert_eq!(big.neg().sub(big).raw, -MAX_RAW);
    assert_eq!(big.mul(big).raw, MAX_RAW);
}

#[test]
fn test_scale_and_componentwise_mul() {
    let a = v(1, -2, 3);
    assert_eq!(a.scale(Fx::from_int(2)), v(2, -4, 6));
    assert_eq!(a.mul(v(2, 2, 2)), v(2, -4, 6));
}
