//! Surface hit records and the material scattering model.

use vstd::prelude::*;

use crate::fixed::Fx;
use crate::rand::in_unit_ball;
use crate::rand::random_in_hemisphere;
use crate::rand::random_in_sphere;
use crate::rand::spec_ball_sample;
use crate::rand::spec_hemisphere_sample;
use crate::rand::RandomSource;
use crate::rand::MAX_REJECTION_TRIES;
use crate::ray::Ray;
use crate::sphere::spec_sphere_hits;
use crate::sphere::Sphere;
use crate::vec3::dot;
use crate::vec3::spec_dot;
use crate::vec3::spec_len_sq;
use crate::vec3::spec_length;
use crate::vec3::spec_unit;
use crate::vec3::spec_vadd;
use crate::vec3::spec_vneg;
use crate::vec3::spec_vscale;
use crate::vec3::spec_vsub;
use crate::vec3::Color;
use crate::vec3::Point;
use crate::vec3::Vec3;

verus! {

/// Raw value of the bias added along the normal to a scattered ray's origin,
/// so the new ray cannot immediately re-hit the surface it left.
pub const SURFACE_BIAS_RAW: i64 = 66;

/// One intersection of a ray with a surface. The normal is always oriented
/// to oppose the incoming ray; `front_face` records whether the ray
/// approached from outside.
#[derive(Clone, Copy, Debug, PartialEq, Eq, Structural)]
pub struct HitRecord {
    pub t: Fx,
    pub p: Point,
    pub n: Vec3,
    pub front_face: bool,
}

impl HitRecord {
    pub open spec fn wf(self) -> bool {
        self.t.wf() && self.p.wf() && self.n.wf()
    }
}

/// One scattering step: the color attenuation it contributes and the ray
/// that continues the path.
#[derive(Clone, Copy, Debug, PartialEq, Eq, Structural)]
pub struct ScatterResult {
    pub attenuation: Color,
    pub scattered_ray: Ray,
}

impl ScatterResult {
    pub open spec fn wf(self) -> bool {
        self.attenuation.wf() && self.scattered_ray.wf()
    }
}

/// The bias vector added to `p` along `n`.
pub open spec fn spec_bias(p: Point, n: Vec3) -> Point {
    spec_vadd(p, spec_vscale(n, Fx { raw: SURFACE_BIAS_RAW }))
}

/// The direction `v` mirrored about the normal `n`.
pub open spec fn spec_reflect(v: Vec3, n: Vec3) -> Vec3 {
    spec_vsub(v, spec_vscale(n, Fx::spec_mul(Fx { raw: 131072 }, spec_dot(v, n))))
}

/// Mirror a direction about a surface normal.
pub fn reflect_vector(v: Vec3, n: Vec3) -> (r: Vec3)
    requires
        v.wf(),
        n.wf(),
    ensures
        r == spec_reflect(v, n),
        r.wf(),
{
    let k = Fx { raw: 131072 }.mul(dot(v, n));
    v.sub(n.scale(k))
}

/// Diffuse material: scatters into the hemisphere of the surface normal and
/// attenuates by its albedo.
#[derive(Clone, Copy, Debug, PartialEq, Eq, Structural)]
pub struct Lambertian {
    pub albedo: Color,
}

/// The direction a diffuse surface scatters into, drawn from state `s`:
/// the hemisphere sample, with the normal substituted for a degenerate
/// (zero-length) sample.
pub open spec fn spec_lambertian_dir(s: u64, n: Vec3) -> (Vec3, u64) {
    let hs = spec_hemisphere_sample(s, n);
    if spec_length(hs.0).raw == 0 {
        (n, hs.1)
    } else {
        hs
    }
}

impl Lambertian {
    /// Scatter toward a random direction in the normal's hemisphere,
    /// substituting the normal itself for a degenerate (zero-length) sample.
    /// Always scatters; the attenuation is exactly the albedo.
    pub fn scatter(&self, _r: Ray, h: HitRecord, rng: &mut RandomSource) -> (res: Option<
        ScatterResult,
    >)
        requires
            self.albedo.wf(),
            h.wf(),
        ensures
            res is Some,
            res->Some_0.attenuation == self.albedo,
            res->Some_0.scattered_ray.origin == spec_bias(h.p, h.n),
            res->Some_0.scattered_ray.d == spec_lambertian_dir(old(rng).state, h.n).0,
            final(rng).state == spec_lambertian_dir(old(rng).state, h.n).1,
            res->Some_0.scattered_ray.d == h.n || (in_unit_ball(res->Some_0.scattered_ray.d)
                && spec_dot(res->Some_0.scattered_ray.d, h.n).raw >= 0
                && spec_length(res->Some_0.scattered_ray.d).raw > 0),
            res->Some_0.wf(),
    {
        let mut new_ray = Ray {
            origin: h.p.add(h.n.scale(Fx { raw: SURFACE_BIAS_RAW })),
            d: random_in_hemisphere(rng, h.n),
        };
        if new_ray.d.length().raw == 0 {
            new_ray.d = h.n;
        }
        Some(ScatterResult { attenuation: self.albedo, scattered_ray: new_ray })
    }
}

/// Specular material: reflects the incoming direction about the normal and
/// perturbs it by `fuzziness` times a random unit-ball vector.
#[derive(Clone, Copy, Debug, PartialEq, Eq, Structural)]
pub struct Metal {
    pub albedo: Color,
    pub fuzziness: Fx,
}

impl Metal {
    /// Always scatters (no absorption test); the attenuation is exactly the
    /// albedo, and a fuzziness of zero gives the perfect mirror direction.
    pub fn scatter(&self, r: Ray, h: HitRecord, rng: &mut RandomSource) -> (res: Option<
        ScatterResult,
    >)
        requires
            self.albedo.wf(),
            self.fuzziness.wf(),
            r.wf(),
            h.wf(),
        ensures
            res is Some,
            res->Some_0.attenuation == self.albedo,
            res->Some_0.scattered_ray.origin == spec_bias(h.p, h.n),
            res->Some_0.scattered_ray.d == spec_vadd(
                spec_reflect(r.d, h.n),
                spec_vscale(
                    spec_ball_sample(old(rng).state, MAX_REJECTION_TRIES as nat).0,
                    self.fuzziness,
                ),
            ),
            final(rng).state == spec_ball_sample(old(rng).state, MAX_REJECTION_TRIES as nat).1,
            self.fuzziness.raw == 0 ==> res->Some_0.scattered_ray.d == spec_reflect(r.d, h.n),
            res->Some_0.wf(),
    {
        let reflected_d = reflect_vector(r.d, h.n);
        let p = random_in_sphere(rng);
        let perturb = p.scale(self.fuzziness);
        proof {
            if self.fuzziness.raw == 0 {
                assert(p.x.raw * self.fuzziness.raw == 0) by (nonlinear_arith)
                    requires
                        self.fuzziness.raw == 0,
                ;
                assert(p.y.raw * self.fuzziness.raw == 0) by (nonlinear_arith)
                    requires
                        self.fuzziness.raw == 0,
                ;
                assert(p.z.raw * self.fuzziness.raw == 0) by (nonlinear_arith)
                    requires
                        self.fuzziness.raw == 0,
                ;
                assert(spec_vadd(reflected_d, perturb) == reflected_d);
            }
        }
        let new_ray = Ray {
            origin: h.p.add(h.n.scale(Fx { raw: SURFACE_BIAS_RAW })),
            d: reflected_d.add(perturb),
        };
        Some(ScatterResult { attenuation: self.albedo, scattered_ray: new_ray })
    }
}

/// Glass material with refractive index `ir`.
#[derive(Clone, Copy, Debug, PartialEq, Eq, Structural)]
pub struct Dielectric {
    pub ir: Fx,
}

/// The color white: dielectric scattering never tints.
pub open spec fn spec_white() -> Color {
    Vec3 { x: Fx { raw: 65536 }, y: Fx { raw: 65536 }, z: Fx { raw: 65536 } }
}

/// The full deterministic scattering rule of the dielectric: refract by
/// Snell's law, or reflect on total internal reflection.
pub open spec fn spec_dielectric_scatter(ir: Fx, r: Ray, h: HitRecord) -> ScatterResult {
    let unit_d = spec_unit(r.d);
    let refraction_rate = if h.front_face {
        Fx::spec_div(Fx { raw: 65536 }, ir)
    } else {
        ir
    };
    let d0 = spec_dot(spec_vneg(unit_d), h.n);
    let cos_theta = if d0.raw <= 65536 {
        d0
    } else {
        Fx { raw: 65536 }
    };
    let in_x = spec_vadd(unit_d, spec_vscale(h.n, cos_theta));
    let sin_theta = spec_length(in_x);
    if Fx::spec_abs(Fx::spec_mul(sin_theta, refraction_rate)).raw > 65536 {
        ScatterResult {
            attenuation: spec_white(),
            scattered_ray: Ray { origin: spec_bias(h.p, h.n), d: spec_reflect(r.d, h.n) },
        }
    } else {
        let ray_x = spec_vscale(in_x, refraction_rate);
        let ray_y = spec_vscale(
            h.n,
            Fx::spec_neg(Fx::spec_sqrt(Fx::spec_sub(Fx { raw: 65536 }, spec_len_sq(ray_x)))),
        );
        ScatterResult {
            attenuation: spec_white(),
            scattered_ray: Ray {
                origin: spec_vsub(h.p, spec_vscale(h.n, Fx { raw: SURFACE_BIAS_RAW })),
                d: spec_vadd(ray_x, ray_y),
            },
        }
    }
}

impl Dielectric {
    /// Refract or reflect deterministically; the attenuation is always
    /// exactly white.
    pub fn scatter(&self, r: Ray, h: HitRecord, rng: &mut RandomSource) -> (res: Option<
        ScatterResult,
    >)
        requires
            self.ir.wf(),
            r.wf(),
            h.wf(),
        ensures
            res is Some,
            res->Some_0 == spec_dielectric_scatter(self.ir, r, h),
            res->Some_0.attenuation == spec_white(),
            *final(rng) == *old(rng),
            res->Some_0.wf(),
    {
        let unit_d = r.d.unit();
        let refraction_rate = if h.front_face {
            Fx { raw: 65536 }.div(self.ir)
        } else {
            self.ir
        };
        let d0 = dot(unit_d.neg(), h.n);
        let cos_theta = if d0.raw <= 65536 {
            d0
        } else {
            Fx { raw: 65536 }
        };
        let in_x = unit_d.add(h.n.scale(cos_theta));
        let sin_theta = in_x.length();

        let d: Vec3;
        let origin: Point;
        if sin_theta.mul(refraction_rate).abs().raw > 65536 {
            d = reflect_vector(r.d, h.n);
            origin = h.p.add(h.n.scale(Fx { raw: SURFACE_BIAS_RAW }));
        } else {
            let ray_x = in_x.scale(refraction_rate);
            let ray_y = h.n.scale(
                Fx { raw: 65536 }.sub(ray_x.length_squared()).sqrt().neg(),
            );
            d = ray_x.add(ray_y);
            origin = h.p.sub(h.n.scale(Fx { raw: SURFACE_BIAS_RAW }));
        }

        Some(
            ScatterResult {
                attenuation: Color { x: Fx { raw: 65536 }, y: Fx { raw: 65536 }, z: Fx { raw: 65536 } },
                scattered_ray: Ray { origin, d },
            },
        )
    }
}

/// The closed set of surface materials, dispatched by pattern match.
#[derive(Clone, Copy, Debug, PartialEq, Eq, Structural)]
pub enum Material {
    Lambertian(Lambertian),
    Metal(Metal),
    Dielectric(Dielectric),
}

/// The scattering step a material performs, as a function of the incoming
/// ray, the hit, and the random-source state: the resulting attenuation
/// and outgoing ray, and the state of the source afterwards.
pub open spec fn spec_scatter(m: Material, r: Ray, h: HitRecord, s: u64) -> (ScatterResult, u64) {
    match m {
        Material::Lambertian(l) => {
            let dir = spec_lambertian_dir(s, h.n);
            (
                ScatterResult {
                    attenuation: l.albedo,
                    scattered_ray: Ray { origin: spec_bias(h.p, h.n), d: dir.0 },
                },
                dir.1,
            )
        },
        Material::Metal(me) => {
            let b = spec_ball_sample(s, MAX_REJECTION_TRIES as nat);
            (
                ScatterResult {
                    attenuation: me.albedo,
                    scattered_ray: Ray {
                        origin: spec_bias(h.p, h.n),
                        d: spec_vadd(spec_reflect(r.d, h.n), spec_vscale(b.0, me.fuzziness)),
                    },
                },
                b.1,
            )
        },
        Material::Dielectric(d) => (spec_dielectric_scatter(d.ir, r, h), s),
    }
}

impl Material {
    pub open spec fn wf(self) -> bool {
        match self {
            Material::Lambertian(l) => l.albedo.wf(),
            Material::Metal(m) => m.albedo.wf() && m.fuzziness.wf(),
            Material::Dielectric(d) => d.ir.wf(),
        }
    }

    /// Ask the material for an outgoing ray and an attenuation. Every
    /// material of this closed set scatters; the attenuation is the albedo
    /// for diffuse and metal surfaces and exactly white for glass.
    pub fn scatter(&self, r: Ray, h: HitRecord, rng: &mut RandomSource) -> (res: Option<
        ScatterResult,
    >)
        requires
            self.wf(),
            r.wf(),
            h.wf(),
        ensures
            res is Some,
            res->Some_0 == spec_scatter(*self, r, h, old(rng).state).0,
            final(rng).state == spec_scatter(*self, r, h, old(rng).state).1,
            self matches Material::Lambertian(l) ==> res->Some_0.attenuation == l.albedo,
            self matches Material::Metal(m) ==> res->Some_0.attenuation == m.albedo,
            self matches Material::Dielectric(d) ==> res->Some_0 == spec_dielectric_scatter(
                d.ir,
                r,
                h,
            ) && res->Some_0.attenuation == spec_white(),
            res->Some_0.wf(),
    {
        match self {
            Material::Lambertian(l) => l.scatter(r, h, rng),
            Material::Metal(m) => m.scatter(r, h, rng),
            Material::Dielectric(d) => d.scatter(r, h, rng),
        }
    }
}

/// The closed set of geometries an object can carry. Non-spherical
/// primitives are an extension point, not implemented here.
#[derive(Clone, Copy, Debug, PartialEq, Eq, Structural)]
pub enum Hittable {
    Sphere(Sphere),
}

impl Hittable {
    pub open spec fn wf(self) -> bool {
        match self {
            Hittable::Sphere(s) => s.wf(),
        }
    }

    /// The hits this geometry reports for a ray.
    pub open spec fn spec_hits(self, r: Ray) -> Seq<HitRecord> {
        match self {
            Hittable::Sphere(s) => spec_sphere_hits(s, r),
        }
    }

    /// Intersect the geometry with a ray.
    pub fn hit(&self, r: Ray) -> (hits: Vec<HitRecord>)
        requires
            self.wf(),
            r.wf(),
        ensures
            hits@ == self.spec_hits(r),
            forall|i: int| 0 <= i < hits@.len() ==> (#[trigger] hits@[i]).wf(),
    {
        match self {
            Hittable::Sphere(s) => s.hit(r),
        }
    }
}

/// One scene object: a geometry with the material covering its surface.
#[derive(Clone, Copy, Debug, PartialEq, Eq, Structural)]
pub struct Object {
    pub material: Material,
    pub hittable: Hittable,
}

impl Object {
    pub open spec fn wf(self) -> bool {
        self.material.wf() && self.hittable.wf()
    }

    /// Intersect the object's geometry with a ray.
    pub fn hit(&self, r: Ray) -> (hits: Vec<HitRecord>)
        requires
            self.wf(),
            r.wf(),
        ensures
            hits@ == self.hittable.spec_hits(r),
            forall|i: int| 0 <= i < hits@.len() ==> (#[trigger] hits@[i]).wf(),
    {
        self.hittable.hit(r)
    }
}

/// A hit tagged with the material it struck and the index of the object in
/// the world.
#[derive(Clone, Copy, Debug, PartialEq, Eq, Structural)]
pub struct WorldHitRecord {
    pub hit_record: HitRecord,
    pub material: Material,
    pub object_id: u32,
}

impl WorldHitRecord {
    pub open spec fn wf(self) -> bool {
        self.hit_record.wf() && self.material.wf()
    }
}

/// The hit lies within the closed parameter range.
pub open spec fn in_range(h: WorldHitRecord, tmin: Fx, tmax: Fx) -> bool {
    tmin.raw <= h.hit_record.t.raw <= tmax.raw
}

/// The nearest in-range hit: the earliest hit with minimal parameter among
/// those with `tmin <= t <= tmax`, or `None` when no hit is in range. Ties
/// on equal `t` keep the earlier hit (a fixed but arbitrary rule).
pub open spec fn spec_closest_hit(hits: Seq<WorldHitRecord>, tmin: Fx, tmax: Fx) -> Option<
    WorldHitRecord,
>
    decreases hits.len(),
{
    if hits.len() == 0 {
        None
    } else {
        let first = hits[0];
        let rest = spec_closest_hit(hits.subrange(1, hits.len() as int), tmin, tmax);
        if !in_range(first, tmin, tmax) {
            rest
        } else {
            match rest {
                None => Some(first),
                Some(b) => if first.hit_record.t.raw <= b.hit_record.t.raw {
                    Some(first)
                } else {
                    Some(b)
                },
            }
        }
    }
}

/// What `spec_closest_hit` selects: nothing when no hit is in range, else
/// an in-range member of the sequence with minimal parameter.
pub proof fn lemma_closest_hit_props(hits: Seq<WorldHitRecord>, tmin: Fx, tmax: Fx)
    ensures
        spec_closest_hit(hits, tmin, tmax) is None <==> forall|i: int|
            0 <= i < hits.len() ==> !in_range(#[trigger] hits[i], tmin, tmax),
        spec_closest_hit(hits, tmin, tmax) matches Some(h) ==> {
            &&& exists|i: int| 0 <= i < hits.len() && hits[i] == h
            &&& in_range(h, tmin, tmax)
            &&& forall|i: int|
                0 <= i < hits.len() && in_range(#[trigger] hits[i], tmin, tmax)
                    ==> h.hit_record.t.raw <= hits[i].hit_record.t.raw
        },
    decreases hits.len(),
{
    if hits.len() > 0 {
        let rest = hits.subrange(1, hits.len() as int);
        lemma_closest_hit_props(rest, tmin, tmax);
        assert forall|i: int| 1 <= i < hits.len() implies hits[i] == rest[i - 1] by {}
        match spec_closest_hit(hits, tmin, tmax) {
            None => {},
            Some(h) => {
                if in_range(hits[0], tmin, tmax) {
                    match spec_closest_hit(rest, tmin, tmax) {
                        None => {},
                        Some(b) => {
                            let j = choose|j: int| 0 <= j < rest.len() && rest[j] == b;
                            assert(hits[j + 1] == b);
                        },
                    }
                } else {
                    let j = choose|j: int| 0 <= j < rest.len() && rest[j] == h;
                    assert(hits[j + 1] == h);
                }
            },
        }
    }
}

/// Select the nearest hit with parameter in `[tmin, tmax]`, keeping the
/// earlier hit on ties; `None` when no hit is in range.
pub fn get_closest_hit_in_range(hits: &[WorldHitRecord], tmin: Fx, tmax: Fx) -> (res: Option<
    WorldHitRecord,
>)
    ensures
        res == spec_closest_hit(hits@, tmin, tmax),
        res is None <==> forall|i: int|
            0 <= i < hits@.len() ==> !in_range(#[trigger] hits@[i], tmin, tmax),
        res matches Some(h) ==> {
            &&& exists|i: int| 0 <= i < hits@.len() && hits@[i] == h
            &&& in_range(h, tmin, tmax)
            &&& forall|i: int|
                0 <= i < hits@.len() && in_range(#[trigger] hits@[i], tmin, tmax)
                    ==> h.hit_record.t.raw <= hits@[i].hit_record.t.raw
        },
{
    let n = hits.len();
    let mut acc: Option<WorldHitRecord> = None;
    let mut i: usize = n;
    while i > 0
        invariant
            0 <= i <= n,
            n == hits@.len(),
            acc == spec_closest_hit(hits@.subrange(i as int, n as int), tmin, tmax),
        decreases i,
    {
        i = i - 1;
        let first = hits[i];
        proof {
            let suffix = hits@.subrange(i as int, n as int);
            assert(suffix[0] == first);
            assert(suffix.subrange(1, suffix.len() as int) =~= hits@.subrange(
                i as int + 1,
                n as int,
            ));
        }
        if tmin.raw <= first.hit_record.t.raw && first.hit_record.t.raw <= tmax.raw {
            acc = match acc {
                None => Some(first),
                Some(b) => if first.hit_record.t.raw <= b.hit_record.t.raw {
                    Some(first)
                } else {
                    Some(b)
                },
            };
        }
    }
    proof {
        assert(hits@.subrange(0, n as int) =~= hits@);
        lemma_closest_hit_props(hits@, tmin, tmax);
    }
    acc
}

/// The hits of one object, tagged with its material and index.
pub open spec fn spec_tagged_hits(o: Object, id: u32, r: Ray) -> Seq<WorldHitRecord> {
    o.hittable.spec_hits(r).map_values(
        |h: HitRecord| WorldHitRecord { hit_record: h, material: o.material, object_id: id },
    )
}

/// Every hit of every object, in object order with each object's hits in
/// root order — exhaustive by design, with no early termination.
pub open spec fn spec_world_hits(objs: Seq<Object>, r: Ray) -> Seq<WorldHitRecord>
    decreases objs.len(),
{
    if objs.len() == 0 {
        Seq::empty()
    } else {
        spec_world_hits(objs.drop_last(), r) + spec_tagged_hits(
            objs.last(),
            (objs.len() - 1) as u32,
            r,
        )
    }
}

/// An ordered collection of scene objects, mutated only by appending.
#[derive(Debug)]
pub struct World {
    pub objects: Vec<Object>,
}

impl Default for World {
    /// An empty world.
    fn default() -> (w: World)
        ensures
            w.objects@.len() == 0,
    {
        World { objects: Vec::new() }
    }
}

impl World {
    pub open spec fn wf(self) -> bool {
        forall|i: int| 0 <= i < self.objects@.len() ==> (#[trigger] self.objects@[i]).wf()
    }

    /// Append an object; existing objects keep their indices.
    pub fn add_object(&mut self, object: Object)
        ensures
            final(self).objects@ == old(self).objects@.push(object),
    {
        self.objects.push(object);
    }

    /// Collect every hit of every object for this ray, tagged with the
    /// object's material and index.
    #[verifier::rlimit(80)]
    pub fn hit(&self, r: Ray) -> (hits: Vec<WorldHitRecord>)
        requires
            self.wf(),
            r.wf(),
            self.objects@.len() <= 0xFFFF_FFFF,
        ensures
            hits@ == spec_world_hits(self.objects@, r),
            forall|i: int| 0 <= i < hits@.len() ==> (#[trigger] hits@[i]).wf(),
    {
        let mut hits: Vec<WorldHitRecord> = Vec::new();
        let n = self.objects.len();
        for i in 0..n
            invariant
                n == self.objects@.len(),
                n <= 0xFFFF_FFFF,
                self.wf(),
                r.wf(),
                hits@ == spec_world_hits(self.objects@.subrange(0, i as int), r),
                forall|k: int| 0 <= k < hits@.len() ==> (#[trigger] hits@[k]).wf(),
        {
            let object = &self.objects[i];
            let obj_hits = object.hit(r);
            let m = obj_hits.len();
            let ghost tagged = spec_tagged_hits(*object, i as u32, r);
            for j in 0..m
                invariant
                    m == obj_hits@.len(),
                    i < n,
                    n == self.objects@.len(),
                    object == &self.objects@[i as int],
                    object.wf(),
                    tagged == spec_tagged_hits(*object, i as u32, r),
                    obj_hits@ == object.hittable.spec_hits(r),
                    forall|k: int| 0 <= k < obj_hits@.len() ==> (#[trigger] obj_hits@[k]).wf(),
                    hits@ == spec_world_hits(self.objects@.subrange(0, i as int), r)
                        + tagged.subrange(0, j as int),
                    forall|k: int| 0 <= k < hits@.len() ==> (#[trigger] hits@[k]).wf(),
            {
                let h = obj_hits[j];
                hits.push(
                    WorldHitRecord { hit_record: h, material: object.material, object_id: i as u32 },
                );
                proof {
                    assert(tagged[j as int].hit_record == h);
                    assert(tagged.subrange(0, j as int + 1) =~= tagged.subrange(0, j as int).push(
                        tagged[j as int],
                    ));
                    assert(hits@ == spec_world_hits(self.objects@.subrange(0, i as int), r)
                        + tagged.subrange(0, j as int + 1));
                }
            }
            proof {
                let prefix = self.objects@.subrange(0, i as int + 1);
                assert(prefix.drop_last() =~= self.objects@.subrange(0, i as int));
                assert(prefix.last() == self.objects@[i as int]);
                assert(tagged.subrange(0, m as int) =~= tagged);
                assert(hits@ == spec_world_hits(prefix, r));
            }
        }
        proof {
            assert(self.objects@.subrange(0, n as int) =~= self.objects@);
        }
        hits
    }
}

} // verus!
