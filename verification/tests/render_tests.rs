use raytracing::camera::Camera;
use raytracing::camera::CameraConfig;
use raytracing::camera::tan_approx;
use raytracing::fixed::Fx;
use raytracing::hittable::Hittable;
use raytracing::hittable::Lambertian;
use raytracing::hittable::Material;
use raytracing::hittable::Object;
use raytracing::hittable::World;
use raytracing::rand::RandomSource;
use raytracing::ray::Ray;
use raytracing::render::color_level;
use raytracing::render::ppm_triple;
use raytracing::render::ray_color;
use raytracing::render::ray_color_blue_gradient;
use raytracing::render::render;
use raytracing::render::render_row;
use raytracing::render::RenderConfig;
use raytracing::sphere::Sphere;
use raytracing::vec3::Color;
use raytracing::vec3::Vec3;

fn v(x: i64, y: i64, z: i64) -> Vec3 {
    Vec3 { x: Fx::from_int(x), y: Fx::from_int(y), z: Fx::from_int(z) }
}

fn empty_world() -> World {
    World::default()
}

#[test]
fn test_trace_depth_zero_is_black() {
    let w = empty_world();
    let mut rng = RandomSource::new(1);
    let r = Ray { origin: v(3, -2, 8), d: v(1, 1, 0) };
    assert_eq!(ray_color(r, &w, 0, &mut rng), Color::zero());
}

#[test]
fn test_trace_miss_is_sky_gradient() {
    let w = empty_world();
    let mut rng = RandomSource::new(1);
    let r = Ray { origin: v(0, 0, 0), d: v(0, 0, -1) };
    let c = ray_color(r, &w, 8, &mut rng);
    assert_eq!(c, ray_color_blue_gradient(r));
    // direction with y = 0 blends white and sky-blue evenly
    assert_eq!(c, Vec3 { x: Fx { raw: 49152 }, y: Fx { raw: 55705 }, z: Fx { raw: 65536 } });
}

#[test]
fn test_gradient_extremes() {
    // straight up: pure sky-blue
    let up = ray_color_blue_gradient(Ray { origin: v(0, 0, 0), d: v(0, 1, 0) });
    assert_eq!(up, Vec3 { x: Fx { raw: 32768 }, y: Fx { raw: 45875 }, z: Fx { raw: 65536 } });
    // straight down: pure white
    let down = ray_color_blue_gradient(Ray { origin: v(0, 0, 0), d: v(0, -1, 0) });
    assert_eq!(down, v(1, 1, 1));
}

#[test]
fn test_color_levels() {
    assert_eq!(color_level(Fx::from_int(0)), 0);
    assert_eq!(color_level(Fx::from_int(1)), 255);
    assert_eq!(color_level(Fx::from_ratio(1, 2)), 127);
    assert_eq!(color_level(Fx::from_ratio(1, 4)), 63);
    let t = ppm_triple(Color { x: Fx::from_int(0), y: Fx::from_ratio(1, 2), z: Fx::from_int(1) });
    assert_eq!(t, (0, 127, 255));
}

#[test]
fn test_random_offset_range_and_determinism() {
    let mut a = RandomSource::new(123);
    let mut b = RandomSource::new(123);
    for _ in 0..100 {
        let x = raytracing::rand::get_random_offset(&mut a);
        assert!(-65536 <= x.raw && x.raw <= 65536);
        assert_eq!(x, raytracing::rand::get_random_offset(&mut b));
    }
}

#[test]
fn test_random_in_sphere_within_ball() {
    let mut rng = RandomSource::new(77);
    for _ in 0..50 {
        let p = raytracing::rand::random_in_sphere(&mut rng);
        assert!(p.length().raw <= 65536);
    }
}

#[test]
fn test_random_in_unit_disk_planar() {
    let mut rng = RandomSource::new(78);
    for _ in 0..50 {
        let p = raytracing::rand::random_in_unit_disk(&mut rng);
        assert!(p.length().raw <= 65536);
        assert_eq!(p.z.raw, 0);
    }
}

#[test]
fn test_tan_approx_at_quarter_turn() {
    // tan(pi/4) = 1, up to the polynomial and fixed-point error
    let x = Fx { raw: 51471 };
    let t = tan_approx(x);
    assert!((t.raw - 65536).abs() < 1400, "tan(pi/4) = {} raw", t.raw);
}

fn simple_camera(aspect_num: i64, aspect_den: i64) -> Camera {
    Camera::new(CameraConfig {
        lookfrom: v(0, 0, 0),
        lookat: v(0, 0, -1),
        vup: v(0, 1, 0),
        vfov: Fx::from_int(90),
        aspect_ratio: Fx::from_ratio(aspect_num, aspect_den),
        aperture: Fx::from_int(0),
        focus_dist: Fx::from_int(1),
    })
}

#[test]
fn test_camera_basis_and_center_ray() {
    let cam = simple_camera(1, 1);
    assert_eq!(cam.origin, v(0, 0, 0));
    assert_eq!(cam.u, v(1, 0, 0));
    assert_eq!(cam.v, v(0, 1, 0));
    assert_eq!(cam.lens_radius.raw, 0);

    let mut rng = RandomSource::new(2);
    let r = cam.get_ray(Fx::from_ratio(1, 2), Fx::from_ratio(1, 2), &mut rng);
    // aperture zero: the origin is not jittered
    assert_eq!(r.origin, v(0, 0, 0));
    // the center ray points down the view axis, up to rounding
    assert!(r.d.x.raw.abs() <= 66, "center ray x = {}", r.d.x.raw);
    assert!(r.d.y.raw.abs() <= 66, "center ray y = {}", r.d.y.raw);
    assert!(r.d.z.raw < -60000, "center ray z = {}", r.d.z.raw);
}

fn reference_world() -> World {
    let mut w = World::default();
    w.add_object(Object {
        hittable: Hittable::Sphere(Sphere { o: v(0, 0, -1), r: Fx::from_ratio(1, 2) }),
        material: Material::Lambertian(Lambertian {
            albedo: Color { x: Fx::from_ratio(1, 2), y: Fx::from_ratio(1, 2), z: Fx::from_ratio(1, 2) },
        }),
    });
    w.add_object(Object {
        hittable: Hittable::Sphere(Sphere {
            o: Vec3 { x: Fx::from_int(0), y: Fx::from_ratio(-201, 2), z: Fx::from_int(-1) },
            r: Fx::from_int(100),
        }),
        material: Material::Lambertian(Lambertian {
            albedo: Color { x: Fx::from_ratio(1, 2), y: Fx::from_ratio(1, 2), z: Fx::from_ratio(1, 2) },
        }),
    });
    w
}

fn reference_config() -> RenderConfig {
    RenderConfig {
        aspect_ratio: Fx::from_int(2),
        img_width: 100,
        img_height: 50,
        number_of_samples: 1,
        depth: 8,
    }
}

fn image_checksum(img: &[Vec<Color>]) -> u64 {
    let mut acc: u64 = 0xcbf29ce484222325;
    for row in img {
        for px in row {
            for lv in [px.x.raw, px.y.raw, px.z.raw] {
                acc ^= lv as u64;
                acc = acc.wrapping_mul(0x100000001b3);
            }
        }
    }
    acc
}

#[test]
fn test_render_dimensions() {
    let w = reference_world();
    let cam = simple_camera(2, 1);
    let img = render(&w, &cam, &reference_config(), 42);
    assert_eq!(img.len(), 50);
    for row in &img {
        assert_eq!(row.len(), 100);
    }
}

#[test]
fn test_render_reproducible_end_to_end() {
    let w = reference_world();
    let cam = simple_camera(2, 1);
    let cfg = reference_config();
    let img1 = render(&w, &cam, &cfg, 42);
    let img2 = render(&w, &cam, &cfg, 42);
    // the same seed reproduces the image exactly, however rows are scheduled
    assert_eq!(img1, img2);
    // and each row equals the row rendered on its own
    for (i, row) in img1.iter().enumerate() {
        assert_eq!(row, &render_row(&w, &cam, &cfg, 42, i));
    }
    // the buffer matches the stored reference
    assert_eq!(image_checksum(&img1), 15229924956498785521, "checksum {}", image_checksum(&img1));
}

#[test]
fn test_render_sees_the_scene() {
    let w = reference_world();
    let cam = simple_camera(2, 1);
    let img = render(&w, &cam, &reference_config(), 42);
    // the top corner shows pure sky, far from the spheres
    let sky = img[0][0];
    assert!(sky.z.raw > 55000, "sky z = {}", sky.z.raw);
    // the image center hits the diffuse sphere, darker than the sky
    let center = img[25][50];
    assert!(center.z.raw < sky.z.raw, "center z = {}, sky z = {}", center.z.raw, sky.z.raw);
}

#[test]
fn test_static_scene_contents() {
    let s = raytracing::scene::get_scene();
    assert_eq!(s.world.objects.len(), 4);
    assert_eq!(s.camera_config.vfov, Fx::from_int(90));
    assert_eq!(s.camera_config.lookfrom, v(1, 0, 1));
    match &s.world.objects[1].material {
        Material::Dielectric(d) => assert_eq!(d.ir, Fx::from_ratio(3, 2)),
        _ => panic!("expected the glass sphere second"),
    }
}

#[test]
fn test_generated_scene_contents() {
    let mut rng = RandomSource::new(4);
    let s = raytracing::scene::generate_scene(&mut rng);
    assert_eq!(s.world.objects.len(), 401);
    match &s.world.objects[0].hittable {
        Hittable::Sphere(sp) => assert_eq!(sp.r, Fx::from_int(500)),
    }
    for o in &s.world.objects[1..] {
        match &o.hittable {
            Hittable::Sphere(sp) => assert_eq!(sp.r, Fx::from_ratio(1, 2)),
        }
    }
    // the same seed generates the same world
    let mut rng2 = RandomSource::new(4);
    let s2 = raytracing::scene::generate_scene(&mut rng2);
    assert_eq!(s.world.objects.len(), s2.world.objects.len());
    for (a, b) in s.world.objects.iter().zip(s2.world.objects.iter()) {
        assert_eq!(a.hittable, b.hittable);
        assert_eq!(a.material, b.material);
    }
}

#[test]
fn test_trace_hit_attenuates() {
    // a ray into the diffuse sphere returns an attenuated color:
    // every component at most half of full brightness after one bounce
    let w = reference_world();
    let mut rng = RandomSource::new(6);
    let r = Ray { origin: v(0, 0, 0), d: v(0, 0, -1) };
    let c = ray_color(r, &w, 8, &mut rng);
    assert!(c.x.raw <= 32768, "x = {}", c.x.raw);
    assert!(c.y.raw <= 32768, "y = {}", c.y.raw);
    assert!(c.z.raw <= 32768, "z = {}", c.z.raw);
}
