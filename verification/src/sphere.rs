//! Sphere-ray analytic intersection via the quadratic formula.

use vstd::prelude::*;

use crate::fixed::lemma_tdiv_monotone;
use crate::fixed::Fx;
use crate::hittable::HitRecord;
use crate::ray::spec_at;
use crate::ray::Ray;
use crate::vec3::dot;
use crate::vec3::spec_dot;
use crate::vec3::spec_vdiv;
use crate::vec3::spec_vneg;
use crate::vec3::spec_vsub;
use crate::vec3::Point;
use crate::vec3::Vec3;

verus! {

/// A sphere with center `o` and radius `r`.
#[derive(Clone, Copy, Debug, PartialEq, Eq, Structural)]
pub struct Sphere {
    pub o: Point,
    pub r: Fx,
}

/// The real solutions of `a*x^2 + b*x + c == 0`, smaller root first.
#[derive(Clone, Copy, Debug, PartialEq, Eq, Structural)]
pub enum QuadraticSolution {
    NoSolution,
    OneSolution(Fx),
    TwoSolutions(Fx, Fx),
}

/// The discriminant `b*b - 4*a*c`.
pub open spec fn spec_discriminant(a: Fx, b: Fx, c: Fx) -> Fx {
    Fx::spec_sub(Fx::spec_mul(b, b), Fx::spec_mul(Fx::spec_mul(Fx { raw: 262144 }, a), c))
}

/// The solution set determined by the sign of the discriminant.
pub open spec fn spec_solve_quadratic(a: Fx, b: Fx, c: Fx) -> QuadraticSolution {
    let d = spec_discriminant(a, b, c);
    let den = Fx::spec_mul(Fx { raw: 131072 }, a);
    if d.raw < 0 {
        QuadraticSolution::NoSolution
    } else if d.raw == 0 {
        QuadraticSolution::OneSolution(Fx::spec_div(Fx::spec_neg(b), den))
    } else {
        let sq = Fx::spec_sqrt(d);
        QuadraticSolution::TwoSolutions(
            Fx::spec_div(Fx::spec_sub(Fx::spec_neg(b), sq), den),
            Fx::spec_div(Fx::spec_add(Fx::spec_neg(b), sq), den),
        )
    }
}

/// Solve `a*x^2 + b*x + c == 0`, classifying by the discriminant: negative
/// gives no solution, zero exactly one root, positive two roots with the
/// smaller first.
pub fn solve_quadratic(a: Fx, b: Fx, c: Fx) -> (res: QuadraticSolution)
    requires
        a.wf(),
        b.wf(),
        c.wf(),
    ensures
        res == spec_solve_quadratic(a, b, c),
        spec_discriminant(a, b, c).raw < 0 <==> res is NoSolution,
        spec_discriminant(a, b, c).raw == 0 <==> res is OneSolution,
        spec_discriminant(a, b, c).raw > 0 <==> res is TwoSolutions,
        res matches QuadraticSolution::OneSolution(t) ==> t.wf(),
        res matches QuadraticSolution::TwoSolutions(t1, t2) ==> t1.wf() && t2.wf() && (a.raw > 0
            ==> t1.raw <= t2.raw),
{
    let d = b.mul(b).sub(Fx { raw: 262144 }.mul(a).mul(c));
    if d.raw < 0 {
        return QuadraticSolution::NoSolution;
    }
    let den = Fx { raw: 131072 }.mul(a);
    if d.raw == 0 {
        return QuadraticSolution::OneSolution(b.neg().div(den));
    }
    let sq = d.sqrt();
    let n1 = b.neg().sub(sq);
    let n2 = b.neg().add(sq);
    proof {
        if a.raw > 0 {
            vstd::arithmetic::div_mod::lemma_div_is_ordered(
                131072,
                131072 * (a.raw as int),
                65536,
            );
            assert(den.raw > 0);
            lemma_tdiv_monotone(n1.raw * 65536, n2.raw * 65536, den.raw as int);
        }
    }
    QuadraticSolution::TwoSolutions(n1.div(den), n2.div(den))
}

/// The ray parameters at which a ray meets a sphere.
#[derive(Clone, Copy, Debug, PartialEq, Eq, Structural)]
pub enum RaySphereIntersection {
    NoIntersection,
    OnePoint(Fx),
    TwoPoints(Fx, Fx),
}

/// The quadratic whose roots are the intersection parameters:
/// `a = d.d`, `b = 2 d.(origin-o)`, `c = (origin-o).(origin-o) - r*r`.
pub open spec fn spec_sphere_quadratic(s: Sphere, r: Ray) -> (Fx, Fx, Fx) {
    let oc = spec_vsub(r.origin, s.o);
    (
        spec_dot(r.d, r.d),
        Fx::spec_mul(Fx { raw: 131072 }, spec_dot(r.d, oc)),
        Fx::spec_sub(spec_dot(oc, oc), Fx::spec_mul(s.r, s.r)),
    )
}

pub open spec fn spec_intersect_sphere_ray(s: Sphere, r: Ray) -> RaySphereIntersection {
    let q = spec_sphere_quadratic(s, r);
    match spec_solve_quadratic(q.0, q.1, q.2) {
        QuadraticSolution::NoSolution => RaySphereIntersection::NoIntersection,
        QuadraticSolution::OneSolution(t) => RaySphereIntersection::OnePoint(t),
        QuadraticSolution::TwoSolutions(t1, t2) => RaySphereIntersection::TwoPoints(t1, t2),
    }
}

/// Intersect a sphere with a ray by solving the induced quadratic.
pub fn intersect_sphere_ray(s: Sphere, r: Ray) -> (res: RaySphereIntersection)
    requires
        s.o.wf(),
        s.r.wf(),
        r.wf(),
    ensures
        res == spec_intersect_sphere_ray(s, r),
        res matches RaySphereIntersection::OnePoint(t) ==> t.wf(),
        res matches RaySphereIntersection::TwoPoints(t1, t2) ==> t1.wf() && t2.wf(),
{
    let oc = r.origin.sub(s.o);
    let a = dot(r.d, r.d);
    let b = Fx { raw: 131072 }.mul(dot(r.d, oc));
    let c = dot(oc, oc).sub(s.r.mul(s.r));
    match solve_quadratic(a, b, c) {
        QuadraticSolution::NoSolution => RaySphereIntersection::NoIntersection,
        QuadraticSolution::OneSolution(t) => RaySphereIntersection::OnePoint(t),
        QuadraticSolution::TwoSolutions(t1, t2) => RaySphereIntersection::TwoPoints(t1, t2),
    }
}

/// The oriented hit record at parameter `t`: the outward normal is
/// `(p - o) / r`, negated when the ray approaches from inside so that the
/// stored normal always opposes the incoming ray.
pub open spec fn spec_hit_record(s: Sphere, r: Ray, t: Fx) -> HitRecord {
    let p = spec_at(r, t);
    let outward_n = spec_vdiv(spec_vsub(p, s.o), s.r);
    let front_face = spec_dot(outward_n, spec_vsub(r.origin, p)).raw >= 0;
    HitRecord {
        t,
        p,
        n: if front_face {
            outward_n
        } else {
            spec_vneg(outward_n)
        },
        front_face,
    }
}

/// The hits a sphere reports for a ray, in root order. Roots are reported
/// regardless of sign; callers filter by their valid range.
pub open spec fn spec_sphere_hits(s: Sphere, r: Ray) -> Seq<HitRecord> {
    match spec_intersect_sphere_ray(s, r) {
        RaySphereIntersection::NoIntersection => Seq::empty(),
        RaySphereIntersection::OnePoint(t) => seq![spec_hit_record(s, r, t)],
        RaySphereIntersection::TwoPoints(t1, t2) => seq![
            spec_hit_record(s, r, t1),
            spec_hit_record(s, r, t2),
        ],
    }
}

impl Sphere {
    pub open spec fn wf(self) -> bool {
        self.o.wf() && self.r.wf()
    }

    fn hit_record_at(&self, r: Ray, t: Fx) -> (h: HitRecord)
        requires
            self.wf(),
            r.wf(),
            t.wf(),
        ensures
            h == spec_hit_record(*self, r, t),
            h.wf(),
    {
        let p = r.at(t);
        let outward_n = p.sub(self.o).div(self.r);
        let front_face = dot(outward_n, r.origin.sub(p)).raw >= 0;
        let n = if front_face {
            outward_n
        } else {
            outward_n.neg()
        };
        HitRecord { t, p, n, front_face }
    }

    /// All intersections of the ray with this sphere, as oriented hit
    /// records in root order.
    #[verifier::rlimit(60)]
    pub fn hit(&self, r: Ray) -> (hits: Vec<HitRecord>)
        requires
            self.wf(),
            r.wf(),
        ensures
            hits@ == spec_sphere_hits(*self, r),
            forall|i: int| 0 <= i < hits@.len() ==> (#[trigger] hits@[i]).wf(),
    {
        let ghost target = spec_sphere_hits(*self, r);
        let mut hits: Vec<HitRecord> = Vec::new();
        match intersect_sphere_ray(*self, r) {
            RaySphereIntersection::NoIntersection => {
                proof {
                    assert(hits@ =~= target);
                }
            },
            RaySphereIntersection::OnePoint(t) => {
                hits.push(self.hit_record_at(r, t));
                proof {
                    assert(target == seq![spec_hit_record(*self, r, t)]);
                    assert(hits@ =~= target);
                }
            },
            RaySphereIntersection::TwoPoints(t1, t2) => {
                hits.push(self.hit_record_at(r, t1));
                hits.push(self.hit_record_at(r, t2));
                proof {
                    assert(target == seq![
                        spec_hit_record(*self, r, t1),
                        spec_hit_record(*self, r, t2),
                    ]);
                    assert(hits@ =~= target);
                }
            },
        }
        hits
    }
}

} // verus!
