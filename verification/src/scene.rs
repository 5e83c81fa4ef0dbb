//! Scene descriptions: a camera configuration together with a world of
//! objects, and the two stock scenes.

use vstd::prelude::*;

use crate::camera::CameraConfig;
use crate::fixed::Fx;
use crate::hittable::Dielectric;
use crate::hittable::Hittable;
use crate::hittable::Lambertian;
use crate::hittable::Material;
use crate::hittable::Metal;
use crate::hittable::Object;
use crate::hittable::World;
use crate::rand::get_random_float;
use crate::rand::get_random_offset;
use crate::rand::RandomSource;
use crate::sphere::Sphere;
use crate::vec3::Color;
use crate::vec3::Point;
use crate::vec3::Vec3;

verus! {

/// A fully populated scene: the camera configuration and the world.
#[derive(Debug)]
pub struct Scene {
    pub camera_config: CameraConfig,
    pub world: World,
}

impl Scene {
    pub open spec fn wf(self) -> bool {
        self.camera_config.wf() && self.world.wf()
    }
}

/// The objects of the static world, in insertion order: a diffuse, a glass
/// and a metal sphere in a row over a large diffuse ground sphere.
pub open spec fn spec_static_world_objects() -> Seq<Object> {
    seq![
        Object {
            material: Material::Lambertian(
                Lambertian {
                    albedo: Color { x: Fx { raw: 6553 }, y: Fx { raw: 13107 }, z: Fx { raw: 19660 } },
                },
            ),
            hittable: Hittable::Sphere(
                Sphere {
                    o: Point { x: Fx { raw: 0 }, y: Fx { raw: 0 }, z: Fx { raw: (-65536) as i64 } },
                    r: Fx { raw: 32768 },
                },
            ),
        },
        Object {
            material: Material::Dielectric(Dielectric { ir: Fx { raw: 98304 } }),
            hittable: Hittable::Sphere(
                Sphere {
                    o: Point { x: Fx { raw: (-65536) as i64 }, y: Fx { raw: 0 }, z: Fx { raw: (-65536) as i64 } },
                    r: Fx { raw: 32768 },
                },
            ),
        },
        Object {
            material: Material::Metal(
                Metal {
                    albedo: Color {
                        x: Fx { raw: 52428 },
                        y: Fx { raw: 52428 },
                        z: Fx { raw: 52428 },
                    },
                    fuzziness: Fx { raw: 0 },
                },
            ),
            hittable: Hittable::Sphere(
                Sphere {
                    o: Point { x: Fx { raw: 65536 }, y: Fx { raw: 0 }, z: Fx { raw: (-65536) as i64 } },
                    r: Fx { raw: 32768 },
                },
            ),
        },
        Object {
            material: Material::Lambertian(
                Lambertian {
                    albedo: Color { x: Fx { raw: 6553 }, y: Fx { raw: 45875 }, z: Fx { raw: 19660 } },
                },
            ),
            hittable: Hittable::Sphere(
                Sphere {
                    o: Point { x: Fx { raw: 0 }, y: Fx { raw: (-32800768) as i64 }, z: Fx { raw: (-65536) as i64 } },
                    r: Fx { raw: 32768000 },
                },
            ),
        },
    ]
}

/// The camera configuration of the static scene: looking from `(1, 0, 1)`
/// toward `(0, 0, -1)` with a 90-degree field of view.
pub open spec fn spec_static_camera_config() -> CameraConfig {
    CameraConfig {
        lookfrom: Point { x: Fx { raw: 65536 }, y: Fx { raw: 0 }, z: Fx { raw: 65536 } },
        lookat: Point { x: Fx { raw: 0 }, y: Fx { raw: 0 }, z: Fx { raw: (-65536) as i64 } },
        vup: Vec3 { x: Fx { raw: 0 }, y: Fx { raw: 65536 }, z: Fx { raw: 0 } },
        vfov: Fx { raw: 5898240 },
        aspect_ratio: Fx { raw: 116508 },
        aperture: Fx { raw: 6553 },
        focus_dist: Fx { raw: 131072 },
    }
}

/// The large diffuse earth sphere of the generated world.
pub open spec fn spec_earth_object() -> Object {
    Object {
        material: Material::Lambertian(
            Lambertian {
                albedo: Color { x: Fx { raw: 52428 }, y: Fx { raw: 52428 }, z: Fx { raw: 52428 } },
            },
        ),
        hittable: Hittable::Sphere(
            Sphere {
                o: Point { x: Fx { raw: 0 }, y: Fx { raw: (-32768000) as i64 }, z: Fx { raw: 0 } },
                r: Fx { raw: 32768000 },
            },
        ),
    }
}

/// The object is a small sphere of radius one half.
pub open spec fn is_small_sphere(o: Object) -> bool {
    o.hittable matches Hittable::Sphere(s) && s.r == (Fx { raw: 32768 })
}

/// The static world: a diffuse, a glass and a metal sphere in a row, over
/// a large diffuse ground sphere.
pub fn get_world() -> (w: World)
    ensures
        w.wf(),
        w.objects@ == spec_static_world_objects(),
{
    let mut w: World = Default::default();
    w.add_object(
        Object {
            hittable: Hittable::Sphere(
                Sphere {
                    o: Point { x: Fx::from_int(0), y: Fx::from_int(0), z: Fx::from_int(-1) },
                    r: Fx::from_ratio(1, 2),
                },
            ),
            material: Material::Lambertian(
                Lambertian {
                    albedo: Color {
                        x: Fx::from_ratio(1, 10),
                        y: Fx::from_ratio(2, 10),
                        z: Fx::from_ratio(3, 10),
                    },
                },
            ),
        },
    );
    w.add_object(
        Object {
            hittable: Hittable::Sphere(
                Sphere {
                    o: Point { x: Fx::from_int(-1), y: Fx::from_int(0), z: Fx::from_int(-1) },
                    r: Fx::from_ratio(1, 2),
                },
            ),
            material: Material::Dielectric(Dielectric { ir: Fx::from_ratio(3, 2) }),
        },
    );
    w.add_object(
        Object {
            hittable: Hittable::Sphere(
                Sphere {
                    o: Point { x: Fx::from_int(1), y: Fx::from_int(0), z: Fx::from_int(-1) },
                    r: Fx::from_ratio(1, 2),
                },
            ),
            material: Material::Metal(
                Metal {
                    albedo: Color {
                        x: Fx::from_ratio(8, 10),
                        y: Fx::from_ratio(8, 10),
                        z: Fx::from_ratio(8, 10),
                    },
                    fuzziness: Fx::from_int(0),
                },
            ),
        },
    );
    w.add_object(
        Object {
            hittable: Hittable::Sphere(
                Sphere {
                    o: Point {
                        x: Fx::from_int(0),
                        y: Fx::from_ratio(-1001, 2),
                        z: Fx::from_int(-1),
                    },
                    r: Fx::from_int(500),
                },
            ),
            material: Material::Lambertian(
                Lambertian {
                    albedo: Color {
                        x: Fx::from_ratio(1, 10),
                        y: Fx::from_ratio(7, 10),
                        z: Fx::from_ratio(3, 10),
                    },
                },
            ),
        },
    );
    proof {
        assert(w.objects@ =~= spec_static_world_objects());
    }
    w
}

/// The static scene: the static world with its fixed camera configuration.
pub fn get_scene() -> (s: Scene)
    ensures
        s.wf(),
        s.world.objects@ == spec_static_world_objects(),
        s.camera_config == spec_static_camera_config(),
{
    let lookfrom = Point { x: Fx::from_int(1), y: Fx::from_int(0), z: Fx::from_int(1) };
    let lookat = Point { x: Fx::from_int(0), y: Fx::from_int(0), z: Fx::from_int(-1) };
    let vup = Vec3 { x: Fx::from_int(0), y: Fx::from_int(1), z: Fx::from_int(0) };

    Scene {
        camera_config: CameraConfig {
            lookfrom,
            lookat,
            vup,
            vfov: Fx::from_int(90),
            aspect_ratio: Fx::from_ratio(16, 9),
            aperture: Fx::from_ratio(1, 10),
            focus_dist: Fx::from_int(2),
        },
        world: get_world(),
    }
}

/// The procedurally generated world: a large diffuse earth sphere and a
/// 20 by 20 grid of small spheres resting on it, each with a jittered
/// position and a randomly chosen material.
pub fn generate_world(rng: &mut RandomSource) -> (w: World)
    ensures
        w.wf(),
        w.objects@.len() == 401,
        w.objects@[0] == spec_earth_object(),
        forall|i: int| 1 <= i < w.objects@.len() ==> is_small_sphere(#[trigger] w.objects@[i]),
{
    let mut w: World = Default::default();

    let earth_radius = Fx::from_int(500);
    let earth_center = Point { x: Fx::from_int(0), y: Fx::from_int(-500), z: Fx::from_int(0) };

    w.add_object(
        Object {
            hittable: Hittable::Sphere(Sphere { o: earth_center, r: earth_radius }),
            material: Material::Lambertian(
                Lambertian {
                    albedo: Color {
                        x: Fx::from_ratio(8, 10),
                        y: Fx::from_ratio(8, 10),
                        z: Fx::from_ratio(8, 10),
                    },
                },
            ),
        },
    );

    let rest_radius = Fx::from_ratio(1, 2);
    let surface_dist = earth_radius.add(rest_radius);
    for gi in 0..400usize
        invariant
            w.wf(),
            w.objects@.len() == 1 + gi,
            w.objects@[0] == spec_earth_object(),
            forall|i: int| 1 <= i < w.objects@.len() ==> is_small_sphere(#[trigger] w.objects@[i]),
            rest_radius == (Fx { raw: 32768 }),
            surface_dist.wf(),
            earth_center.wf(),
    {
        let xi: i64 = (gi as i64) / 20 - 10;
        let zi: i64 = (gi as i64) % 20 - 10;
        let x = Fx::from_int(xi * 3).add(get_random_offset(rng));
        let z = Fx::from_int(zi * 3).add(get_random_offset(rng));

        let c = Point { x, y: Fx::from_int(0), z }.sub(earth_center).unit().scale(
            surface_dist,
        ).add(earth_center);

        let material_p = get_random_float(rng);
        let material: Material;
        if material_p.raw > 52428 {
            material = Material::Metal(
                Metal {
                    albedo: Color {
                        x: get_random_float(rng),
                        y: get_random_float(rng),
                        z: get_random_float(rng),
                    },
                    fuzziness: Fx::from_ratio(1, 10).mul(get_random_float(rng)),
                },
            );
        } else if material_p.raw > 45875 {
            material = Material::Dielectric(Dielectric { ir: Fx::from_ratio(3, 2) });
        } else {
            material = Material::Lambertian(
                Lambertian {
                    albedo: Color {
                        x: get_random_float(rng),
                        y: get_random_float(rng),
                        z: get_random_float(rng),
                    },
                },
            );
        }
        w.add_object(
            Object { hittable: Hittable::Sphere(Sphere { o: c, r: rest_radius }), material },
        );
    }

    w
}

/// The camera configuration of the generated scene: looking from
/// `(13, 5, 2)` toward `(0, 0, -1)` with the focus plane twelve units away.
pub open spec fn spec_generated_camera_config() -> CameraConfig {
    CameraConfig {
        lookfrom: Point { x: Fx { raw: 851968 }, y: Fx { raw: 327680 }, z: Fx { raw: 131072 } },
        lookat: Point { x: Fx { raw: 0 }, y: Fx { raw: 0 }, z: Fx { raw: (-65536) as i64 } },
        vup: Vec3 { x: Fx { raw: 0 }, y: Fx { raw: 65536 }, z: Fx { raw: 0 } },
        vfov: Fx { raw: 5898240 },
        aspect_ratio: Fx { raw: 116508 },
        aperture: Fx { raw: 6553 },
        focus_dist: Fx { raw: 786432 },
    }
}

/// The procedurally generated scene with its fixed camera configuration.
pub fn generate_scene(rng: &mut RandomSource) -> (s: Scene)
    ensures
        s.wf(),
        s.world.objects@.len() == 401,
        s.world.objects@[0] == spec_earth_object(),
        s.camera_config == spec_generated_camera_config(),
{
    let w = generate_world(rng);

    let lookfrom = Point { x: Fx::from_int(13), y: Fx::from_int(5), z: Fx::from_int(2) };
    let lookat = Point { x: Fx::from_int(0), y: Fx::from_int(0), z: Fx::from_int(-1) };
    let vup = Vec3 { x: Fx::from_int(0), y: Fx::from_int(1), z: Fx::from_int(0) };

    Scene {
        camera_config: CameraConfig {
            lookfrom,
            lookat,
            vup,
            vfov: Fx::from_int(90),
            aspect_ratio: Fx::from_ratio(16, 9),
            aperture: Fx::from_ratio(1, 10),
            focus_dist: Fx::from_int(12),
        },
        world: w,
    }
}

} // verus!
