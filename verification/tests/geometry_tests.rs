use raytracing::fixed::Fx;
use raytracing::hittable::get_closest_hit_in_range;
use raytracing::hittable::HitRecord;
use raytracing::hittable::Lambertian;
use raytracing::hittable::Material;
use raytracing::hittable::WorldHitRecord;
use raytracing::ray::Ray;
use raytracing::sphere::intersect_sphere_ray;
use raytracing::sphere::solve_quadratic;
use raytracing::sphere::QuadraticSolution;
use raytracing::sphere::RaySphereIntersection;
use raytracing::sphere::Sphere;
use raytracing::vec3::Color;
use raytracing::vec3::Point;
use raytracing::vec3::Vec3;

fn v(x: i64, y: i64, z: i64) -> Vec3 {
    Vec3 { x: Fx::from_int(x), y: Fx::from_int(y), z: Fx::from_int(z) }
}

#[test]
fn test_quadratic_two_roots() {
    match solve_quadratic(Fx::from_int(1), Fx::from_int(0), Fx::from_int(-1)) {
        QuadraticSolution::TwoSolutions(t1, t2) => {
            assert_eq!(t1, Fx::from_int(-1));
            assert_eq!(t2, Fx::from_int(1));
        },
        _ => panic!("expected two solutions"),
    }
}

#[test]
fn test_quadratic_one_root() {
    match solve_quadratic(Fx::from_int(1), Fx::from_int(-2), Fx::from_int(1)) {
        QuadraticSolution::OneSolution(t) => assert_eq!(t, Fx::from_int(1)),
        _ => panic!("expected one solution"),
    }
}

#[test]
fn test_quadratic_scaled_roots_ordered() {
    match solve_quadratic(Fx::from_int(4), Fx::from_int(0), Fx::from_int(-4)) {
        QuadraticSolution::TwoSolutions(t1, t2) => {
            assert_eq!(t1, Fx::from_int(-1));
            assert_eq!(t2, Fx::from_int(1));
            assert!(t1.raw <= t2.raw);
        },
        _ => panic!("expected two solutions"),
    }
}

#[test]
fn test_quadratic_no_root() {
    assert!(matches!(
        solve_quadratic(Fx::from_int(1), Fx::from_int(0), Fx::from_int(1)),
        QuadraticSolution::NoSolution
    ));
}

#[test]
fn test_sphere_intersection_head_on() {
    let s = Sphere { o: v(0, 0, 0), r: Fx::from_int(1) };
    let r = Ray { origin: v(0, 0, 5), d: v(0, 0, -1) };
    match intersect_sphere_ray(s, r) {
        RaySphereIntersection::TwoPoints(t1, t2) => {
            assert_eq!(t1, Fx::from_int(4));
            assert_eq!(t2, Fx::from_int(6));
        },
        _ => panic!("expected two intersection points"),
    }
    let hits = s.hit(r);
    assert_eq!(hits.len(), 2);
    assert_eq!(hits[0].t, Fx::from_int(4));
    assert_eq!(hits[0].n, v(0, 0, 1));
    assert!(hits[0].front_face);
    assert_eq!(hits[1].t, Fx::from_int(6));
    assert!(!hits[1].front_face);
}

#[test]
fn test_sphere_miss() {
    let s = Sphere { o: v(0, 0, 0), r: Fx::from_int(1) };
    let r = Ray { origin: v(0, 5, 5), d: v(0, 0, -1) };
    assert!(s.hit(r).is_empty());
}

#[test]
fn test_ray_at() {
    let r = Ray { origin: v(1, 2, 3), d: v(0, 0, -2) };
    assert_eq!(r.at(Fx::from_int(2)), v(1, 2, -1));
}

fn world_hit(t: i64) -> WorldHitRecord {
    WorldHitRecord {
        hit_record: HitRecord {
            t: Fx::from_int(t),
            p: v(0, 0, 0),
            n: v(0, 1, 0),
            front_face: true,
        },
        material: Material::Lambertian(Lambertian { albedo: Color::zero() }),
        object_id: 0,
    }
}

#[test]
fn test_closest_hit_selection() {
    let hits = vec![world_hit(5), world_hit(2), world_hit(8)];

    let c = get_closest_hit_in_range(&hits, Fx::from_int(0), Fx::from_int(10));
    assert_eq!(c.unwrap().hit_record.t, Fx::from_int(2));

    let c = get_closest_hit_in_range(&hits, Fx::from_int(3), Fx::from_int(10));
    assert_eq!(c.unwrap().hit_record.t, Fx::from_int(5));

    let c = get_closest_hit_in_range(&hits, Fx::from_int(9), Fx::from_int(10));
    assert!(c.is_none());
}

#[test]
fn test_closest_hit_tie_keeps_first() {
    let mut first = world_hit(3);
    first.object_id = 1;
    let mut second = world_hit(3);
    second.object_id = 2;
    let hits = vec![world_hit(7), first, second];
    let c = get_closest_hit_in_range(&hits, Fx::from_int(0), Fx::from_int(10)).unwrap();
    assert_eq!(c.object_id, 1);
}

#[test]
fn test_closest_hit_empty() {
    let hits: Vec<WorldHitRecord> = Vec::new();
    assert!(get_closest_hit_in_range(&hits, Fx::from_int(0), Fx::from_int(10)).is_none());
}
