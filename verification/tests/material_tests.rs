use raytracing::fixed::Fx;
use raytracing::hittable::Dielectric;
use raytracing::hittable::HitRecord;
use raytracing::hittable::Lambertian;
use raytracing::hittable::Metal;
use raytracing::hittable::reflect_vector;
use raytracing::rand::RandomSource;
use raytracing::ray::Ray;
use raytracing::vec3::dot;
use raytracing::vec3::Color;
use raytracing::vec3::Vec3;

fn v(x: i64, y: i64, z: i64) -> Vec3 {
    Vec3 { x: Fx::from_int(x), y: Fx::from_int(y), z: Fx::from_int(z) }
}

fn flat_hit() -> HitRecord {
    HitRecord { t: Fx::from_int(1), p: v(0, 0, 0), n: v(0, 0, 1), front_face: true }
}

#[test]
fn test_lambertian_always_scatters_with_albedo() {
    let albedo = Color { x: Fx::from_ratio(1, 10), y: Fx::from_ratio(2, 10), z: Fx::from_ratio(3, 10) };
    let mat = Lambertian { albedo };
    let r = Ray { origin: v(0, 0, 5), d: v(0, 0, -1) };
    let mut rng = RandomSource::new(11);
    for _ in 0..50 {
        let s = mat.scatter(r, flat_hit(), &mut rng).expect("lambertian always scatters");
        assert_eq!(s.attenuation, albedo);
        // the scattered direction stays in the normal's hemisphere
        assert!(dot(s.scattered_ray.d, v(0, 0, 1)).raw >= 0);
    }
}

#[test]
fn test_lambertian_biases_origin_along_normal() {
    let mat = Lambertian { albedo: Color::zero() };
    let r = Ray { origin: v(0, 0, 5), d: v(0, 0, -1) };
    let mut rng = RandomSource::new(3);
    let s = mat.scatter(r, flat_hit(), &mut rng).unwrap();
    assert_eq!(s.scattered_ray.origin, Vec3 { x: Fx { raw: 0 }, y: Fx { raw: 0 }, z: Fx { raw: 66 } });
}

#[test]
fn test_metal_fuzz_zero_is_perfect_mirror() {
    let mat = Metal { albedo: Color { x: Fx::from_ratio(8, 10), y: Fx::from_ratio(8, 10), z: Fx::from_ratio(8, 10) }, fuzziness: Fx::from_int(0) };
    // incoming ray orthogonal to a flat surface with normal +z
    let r = Ray { origin: v(0, 0, 5), d: v(0, 0, -1) };
    let mut rng = RandomSource::new(5);
    let s = mat.scatter(r, flat_hit(), &mut rng).expect("metal always scatters");
    assert_eq!(s.attenuation, mat.albedo);
    assert_eq!(s.scattered_ray.d, v(0, 0, 1));
}

#[test]
fn test_reflect_vector() {
    // reflecting a 45-degree incoming direction about +y
    assert_eq!(reflect_vector(v(1, -1, 0), v(0, 1, 0)), v(1, 1, 0));
}

#[test]
fn test_dielectric_attenuation_is_white() {
    let mat = Dielectric { ir: Fx::from_ratio(3, 2) };
    let r = Ray { origin: v(0, 0, 5), d: v(0, 0, -1) };
    let mut rng = RandomSource::new(9);
    let s = mat.scatter(r, flat_hit(), &mut rng).expect("dielectric always scatters");
    assert_eq!(s.attenuation, v(1, 1, 1));
}

#[test]
fn test_dielectric_straight_through() {
    let mat = Dielectric { ir: Fx::from_ratio(3, 2) };
    let r = Ray { origin: v(0, 0, 5), d: v(0, 0, -1) };
    let mut rng = RandomSource::new(9);
    let s = mat.scatter(r, flat_hit(), &mut rng).unwrap();
    // head-on rays pass through undeflected, biased into the surface
    assert_eq!(s.scattered_ray.d, v(0, 0, -1));
    assert_eq!(s.scattered_ray.origin.z.raw, -66);
}

#[test]
fn test_dielectric_total_internal_reflection() {
    let mat = Dielectric { ir: Fx::from_ratio(3, 2) };
    // exiting the glass at 45 degrees: beyond the critical angle
    let r = Ray { origin: v(0, 0, 0), d: v(1, 0, -1) };
    let h = HitRecord { t: Fx::from_int(1), p: v(0, 0, 0), n: v(0, 0, 1), front_face: false };
    let mut rng = RandomSource::new(9);
    let s = mat.scatter(r, h, &mut rng).unwrap();
    assert_eq!(s.scattered_ray.d, v(1, 0, 1));
    assert_eq!(s.scattered_ray.origin.z.raw, 66);
}
