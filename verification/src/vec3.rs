//! Three-component fixed-point vector, reused as point, direction and
//! linear color.

use vstd::prelude::*;

use crate::fixed::lemma_add_neg;
use crate::fixed::lemma_mul_neg_left;
use crate::fixed::Fx;

verus! {

/// A vector of three fixed-point components. The same representation serves
/// as a point, a direction, and a linear color; callers give it meaning.
#[derive(Clone, Copy, Debug, PartialEq, Eq, Structural)]
pub struct Vec3 {
    pub x: Fx,
    pub y: Fx,
    pub z: Fx,
}

pub type Point = Vec3;

pub type Color = Vec3;

pub open spec fn spec_vadd(u: Vec3, v: Vec3) -> Vec3 {
    Vec3 {
        x: Fx::spec_add(u.x, v.x),
        y: Fx::spec_add(u.y, v.y),
        z: Fx::spec_add(u.z, v.z),
    }
}

pub open spec fn spec_vneg(u: Vec3) -> Vec3 {
    Vec3 { x: Fx::spec_neg(u.x), y: Fx::spec_neg(u.y), z: Fx::spec_neg(u.z) }
}

pub open spec fn spec_vsub(u: Vec3, v: Vec3) -> Vec3 {
    spec_vadd(u, spec_vneg(v))
}

pub open spec fn spec_vmul(u: Vec3, v: Vec3) -> Vec3 {
    Vec3 {
        x: Fx::spec_mul(u.x, v.x),
        y: Fx::spec_mul(u.y, v.y),
        z: Fx::spec_mul(u.z, v.z),
    }
}

pub open spec fn spec_vscale(u: Vec3, m: Fx) -> Vec3 {
    Vec3 {
        x: Fx::spec_mul(u.x, m),
        y: Fx::spec_mul(u.y, m),
        z: Fx::spec_mul(u.z, m),
    }
}

pub open spec fn spec_vdiv(u: Vec3, m: Fx) -> Vec3 {
    Vec3 {
        x: Fx::spec_div(u.x, m),
        y: Fx::spec_div(u.y, m),
        z: Fx::spec_div(u.z, m),
    }
}

pub open spec fn spec_dot(u: Vec3, v: Vec3) -> Fx {
    Fx::spec_add(
        Fx::spec_add(Fx::spec_mul(u.x, v.x), Fx::spec_mul(u.y, v.y)),
        Fx::spec_mul(u.z, v.z),
    )
}

pub open spec fn spec_cross(u: Vec3, v: Vec3) -> Vec3 {
    Vec3 {
        x: Fx::spec_sub(Fx::spec_mul(u.y, v.z), Fx::spec_mul(v.y, u.z)),
        y: Fx::spec_neg(Fx::spec_sub(Fx::spec_mul(u.x, v.z), Fx::spec_mul(v.x, u.z))),
        z: Fx::spec_sub(Fx::spec_mul(u.x, v.y), Fx::spec_mul(v.x, u.y)),
    }
}

pub open spec fn spec_len_sq(u: Vec3) -> Fx {
    spec_dot(u, u)
}

pub open spec fn spec_length(u: Vec3) -> Fx {
    Fx::spec_sqrt(spec_len_sq(u))
}

pub open spec fn spec_unit(u: Vec3) -> Vec3 {
    spec_vdiv(u, spec_length(u))
}

impl Vec3 {
    /// All three components stay within the representable range.
    pub open spec fn wf(self) -> bool {
        self.x.wf() && self.y.wf() && self.z.wf()
    }

    pub open spec fn spec_zero() -> Vec3 {
        Vec3 { x: Fx { raw: 0 }, y: Fx { raw: 0 }, z: Fx { raw: 0 } }
    }

    /// The zero vector, also used as the color black.
    pub fn zero() -> (r: Vec3)
        ensures
            r == Vec3::spec_zero(),
            r.wf(),
    {
        Vec3 { x: Fx::zero(), y: Fx::zero(), z: Fx::zero() }
    }

    /// Componentwise sum.
    pub fn add(self, o: Vec3) -> (r: Vec3)
        requires
            self.wf(),
            o.wf(),
        ensures
            r == spec_vadd(self, o),
            r.wf(),
    {
        Vec3 { x: self.x.add(o.x), y: self.y.add(o.y), z: self.z.add(o.z) }
    }

    /// Componentwise negation.
    pub fn neg(self) -> (r: Vec3)
        requires
            self.wf(),
        ensures
            r == spec_vneg(self),
            r.wf(),
    {
        Vec3 { x: self.x.neg(), y: self.y.neg(), z: self.z.neg() }
    }

    /// Componentwise difference.
    pub fn sub(self, o: Vec3) -> (r: Vec3)
        requires
            self.wf(),
            o.wf(),
        ensures
            r == spec_vsub(self, o),
            r.wf(),
    {
        self.add(o.neg())
    }

    /// Componentwise (Hadamard) product.
    pub fn mul(self, o: Vec3) -> (r: Vec3)
        requires
            self.wf(),
            o.wf(),
        ensures
            r == spec_vmul(self, o),
            r.wf(),
    {
        Vec3 { x: self.x.mul(o.x), y: self.y.mul(o.y), z: self.z.mul(o.z) }
    }

    /// Scalar multiple.
    pub fn scale(self, m: Fx) -> (r: Vec3)
        requires
            self.wf(),
            m.wf(),
        ensures
            r == spec_vscale(self, m),
            r.wf(),
    {
        Vec3 { x: self.x.mul(m), y: self.y.mul(m), z: self.z.mul(m) }
    }

    /// Scalar divide.
    pub fn div(self, m: Fx) -> (r: Vec3)
        requires
            self.wf(),
            m.wf(),
        ensures
            r == spec_vdiv(self, m),
            r.wf(),
    {
        Vec3 { x: self.x.div(m), y: self.y.div(m), z: self.z.div(m) }
    }

    /// Squared Euclidean length.
    pub fn length_squared(&self) -> (r: Fx)
        requires
            self.wf(),
        ensures
            r == spec_len_sq(*self),
            r.wf(),
    {
        self.x.mul(self.x).add(self.y.mul(self.y)).add(self.z.mul(self.z))
    }

    /// Euclidean length.
    pub fn length(&self) -> (r: Fx)
        requires
            self.wf(),
        ensures
            r == spec_length(*self),
            r.raw >= 0,
            r.wf(),
    {
        self.length_squared().sqrt()
    }

    /// The vector scaled to unit length. A zero-length vector saturates
    /// (division by zero); callers avoid it, as with the original
    /// floating-point normalization.
    pub fn unit(&self) -> (r: Vec3)
        requires
            self.wf(),
        ensures
            r == spec_unit(*self),
            r.wf(),
    {
        self.div(self.length())
    }
}

/// Dot product.
pub fn dot(u: Vec3, v: Vec3) -> (r: Fx)
    requires
        u.wf(),
        v.wf(),
    ensures
        r == spec_dot(u, v),
        r.wf(),
{
    u.x.mul(v.x).add(u.y.mul(v.y)).add(u.z.mul(v.z))
}

/// Cross product, following the right-hand rule.
pub fn cross(u: Vec3, v: Vec3) -> (r: Vec3)
    requires
        u.wf(),
        v.wf(),
    ensures
        r == spec_cross(u, v),
        r.wf(),
{
    Vec3 {
        x: u.y.mul(v.z).sub(v.y.mul(u.z)),
        y: u.x.mul(v.z).sub(v.x.mul(u.z)).neg(),
        z: u.x.mul(v.y).sub(v.x.mul(u.y)),
    }
}

/// Adding a vector and then subtracting it gives the first vector back,
/// provided no component sum saturates.
pub proof fn lemma_add_sub_cancel(a: Vec3, b: Vec3)
    requires
        a.wf(),
        b.wf(),
        -crate::fixed::MAX_RAW <= a.x.raw + b.x.raw <= crate::fixed::MAX_RAW,
        -crate::fixed::MAX_RAW <= a.y.raw + b.y.raw <= crate::fixed::MAX_RAW,
        -crate::fixed::MAX_RAW <= a.z.raw + b.z.raw <= crate::fixed::MAX_RAW,
    ensures
        spec_vsub(spec_vadd(a, b), b) == a,
{
}

/// The cross product is antisymmetric: swapping the arguments negates it.
pub proof fn lemma_cross_antisymmetric(a: Vec3, b: Vec3)
    requires
        a.wf(),
        b.wf(),
    ensures
        spec_cross(a, b) == spec_vneg(spec_cross(b, a)),
{
}

/// Negating the first argument of a dot product negates the result exactly.
pub proof fn lemma_dot_neg_left(v: Vec3, n: Vec3)
    requires
        v.wf(),
        n.wf(),
    ensures
        spec_dot(spec_vneg(v), n) == Fx::spec_neg(spec_dot(v, n)),
{
    lemma_mul_neg_left(v.x, n.x);
    lemma_mul_neg_left(v.y, n.y);
    lemma_mul_neg_left(v.z, n.z);
    lemma_add_neg(Fx::spec_mul(v.x, n.x), Fx::spec_mul(v.y, n.y));
    lemma_add_neg(
        Fx::spec_add(Fx::spec_mul(v.x, n.x), Fx::spec_mul(v.y, n.y)),
        Fx::spec_mul(v.z, n.z),
    );
}

} // verus!
