//! Ray as origin plus direction, with the point-at-parameter operation.

use vstd::prelude::*;

use crate::fixed::Fx;
use crate::vec3::spec_vadd;
use crate::vec3::spec_vscale;
use crate::vec3::Point;
use crate::vec3::Vec3;

verus! {

/// A ray `origin + t * d`. The direction is not required to be unit length.
#[derive(Clone, Copy, Debug, PartialEq, Eq, Structural)]
pub struct Ray {
    pub origin: Point,
    pub d: Vec3,
}

pub open spec fn spec_at(r: Ray, t: Fx) -> Point {
    spec_vadd(r.origin, spec_vscale(r.d, t))
}

impl Ray {
    pub open spec fn wf(self) -> bool {
        self.origin.wf() && self.d.wf()
    }

    /// The point at parameter `t` along the ray.
    pub fn at(&self, t: Fx) -> (p: Point)
        requires
            self.wf(),
            t.wf(),
        ensures
            p == spec_at(*self, t),
            p.wf(),
    {
        self.origin.add(self.d.scale(t))
    }
}

} // verus!
