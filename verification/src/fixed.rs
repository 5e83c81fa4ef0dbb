//! Signed fixed-point scalar with 16 fractional bits.
//!
//! A value `v` is represented by `raw`, with `v = raw / 65536`. All
//! operations are total: results outside the representable range saturate at
//! `MAX_RAW` / `-MAX_RAW`, and division by zero saturates with the sign of
//! the dividend. Multiplication and division truncate toward zero.

use vstd::prelude::*;

verus! {

/// Number of raw units per 1.0.
pub const FRAC_ONE: i64 = 65536;

/// Largest representable raw magnitude.
pub const MAX_RAW: i64 = 0x3FFF_FFFF_FFFF_FFFF;

/// Fixed-point scalar: the represented value is `raw / 65536`.
#[derive(Clone, Copy, Debug, PartialEq, Eq, Structural)]
pub struct Fx {
    pub raw: i64,
}

/// Clamp a mathematical integer into the representable raw range.
pub open spec fn sat(x: int) -> i64 {
    if x > MAX_RAW {
        MAX_RAW
    } else if x < -MAX_RAW {
        (-MAX_RAW) as i64
    } else {
        x as i64
    }
}

/// Build the scalar whose raw value is `x`, saturated.
pub open spec fn fx(x: int) -> Fx {
    Fx { raw: sat(x) }
}

/// Division truncating toward zero, defined for `q != 0`.
pub open spec fn tdiv(p: int, q: int) -> int {
    let pp = if p >= 0 { p } else { -p };
    let qq = if q >= 0 { q } else { -q };
    let m = pp / qq;
    if (p >= 0) == (q >= 0) {
        m
    } else {
        -m
    }
}

impl Fx {
    /// The raw magnitude stays within the representable range.
    pub open spec fn wf(self) -> bool {
        -MAX_RAW <= self.raw <= MAX_RAW
    }

    pub open spec fn spec_zero() -> Fx {
        Fx { raw: 0 }
    }

    pub open spec fn spec_add(a: Fx, b: Fx) -> Fx {
        fx(a.raw + b.raw)
    }

    pub open spec fn spec_sub(a: Fx, b: Fx) -> Fx {
        fx(a.raw - b.raw)
    }

    pub open spec fn spec_neg(a: Fx) -> Fx {
        fx(-a.raw)
    }

    pub open spec fn spec_mul(a: Fx, b: Fx) -> Fx {
        fx(tdiv(a.raw * b.raw, FRAC_ONE as int))
    }

    pub open spec fn spec_div(a: Fx, b: Fx) -> Fx {
        if b.raw == 0 {
            if a.raw >= 0 {
                Fx { raw: MAX_RAW }
            } else {
                Fx { raw: (-MAX_RAW) as i64 }
            }
        } else {
            fx(tdiv(a.raw * (FRAC_ONE as int), b.raw as int))
        }
    }

    pub open spec fn spec_from_int(x: int) -> Fx {
        fx(x * (FRAC_ONE as int))
    }

    /// Zero.
    pub fn zero() -> (r: Fx)
        ensures
            r == Fx::spec_zero(),
            r.wf(),
    {
        Fx { raw: 0 }
    }

    /// The scalar representing the integer `x`, saturated.
    pub fn from_int(x: i64) -> (r: Fx)
        ensures
            r == Fx::spec_from_int(x as int),
            r.wf(),
    {
        if x > MAX_RAW / FRAC_ONE {
            Fx { raw: MAX_RAW }
        } else if x < -(MAX_RAW / FRAC_ONE) {
            Fx { raw: -MAX_RAW }
        } else {
            Fx { raw: x * FRAC_ONE }
        }
    }

    /// The scalar representing the integer `x`, saturated.
    pub fn from_usize(x: usize) -> (r: Fx)
        ensures
            r == Fx::spec_from_int(x as int),
            r.wf(),
    {
        if x as u64 >= 0x4000_0000_0000 {
            Fx { raw: MAX_RAW }
        } else {
            Fx { raw: (x as i64) * FRAC_ONE }
        }
    }

    /// The scalar representing the integer `x`; a `u32` is always exact.
    pub fn from_u32(x: u32) -> (r: Fx)
        ensures
            r == Fx::spec_from_int(x as int),
            r.wf(),
    {
        Fx { raw: (x as i64) * FRAC_ONE }
    }

    /// Saturating addition.
    pub fn add(self, o: Fx) -> (r: Fx)
        requires
            self.wf(),
            o.wf(),
        ensures
            r == Fx::spec_add(self, o),
            r.wf(),
    {
        let s: i128 = self.raw as i128 + o.raw as i128;
        Fx { raw: clamp_raw(s) }
    }

    /// Saturating subtraction.
    pub fn sub(self, o: Fx) -> (r: Fx)
        requires
            self.wf(),
            o.wf(),
        ensures
            r == Fx::spec_sub(self, o),
            r.wf(),
    {
        let s: i128 = self.raw as i128 - o.raw as i128;
        Fx { raw: clamp_raw(s) }
    }

    /// Negation.
    pub fn neg(self) -> (r: Fx)
        requires
            self.wf(),
        ensures
            r == Fx::spec_neg(self),
            r.wf(),
    {
        Fx { raw: -self.raw }
    }

    /// Saturating multiplication, truncating toward zero.
    pub fn mul(self, o: Fx) -> (r: Fx)
        requires
            self.wf(),
            o.wf(),
        ensures
            r == Fx::spec_mul(self, o),
            r.wf(),
    {
        let a: i64 = self.raw;
        let b: i64 = o.raw;
        proof {
            lemma_mul_magnitude(a as int, b as int, MAX_RAW as int);
        }
        let p: i128 = (a as i128) * (b as i128);
        let is_neg: bool = p < 0;
        let m: u128 = if is_neg {
            (-p) as u128
        } else {
            p as u128
        };
        let q: u128 = m / 65536;
        let mag: i64 = if q > MAX_RAW as u128 {
            MAX_RAW
        } else {
            q as i64
        };
        let rr: i64 = if is_neg {
            -mag
        } else {
            mag
        };
        Fx { raw: rr }
    }

    /// Saturating division, truncating toward zero. Division by zero
    /// saturates with the sign of the dividend.
    pub fn div(self, o: Fx) -> (r: Fx)
        requires
            self.wf(),
            o.wf(),
        ensures
            r == Fx::spec_div(self, o),
            r.wf(),
    {
        if o.raw == 0 {
            if self.raw >= 0 {
                return Fx { raw: MAX_RAW };
            } else {
                return Fx { raw: -MAX_RAW };
            }
        }
        let is_neg: bool = (self.raw < 0) != (o.raw < 0);
        let ma: u128 = (abs_mag(self.raw) as u128) * 65536;
        let mb: u128 = abs_mag(o.raw) as u128;
        let q: u128 = ma / mb;
        let mag: i64 = if q > MAX_RAW as u128 {
            MAX_RAW
        } else {
            q as i64
        };
        let rr: i64 = if is_neg {
            -mag
        } else {
            mag
        };
        Fx { raw: rr }
    }

    pub open spec fn spec_sqrt(a: Fx) -> Fx {
        if a.raw <= 0 {
            Fx { raw: 0 }
        } else {
            Fx { raw: spec_isqrt(a.raw * 65536) as i64 }
        }
    }

    /// Square root, rounded down to the nearest representable value.
    /// Nonpositive inputs give zero.
    pub fn sqrt(self) -> (r: Fx)
        requires
            self.wf(),
        ensures
            r == Fx::spec_sqrt(self),
            r.raw >= 0,
            r.wf(),
    {
        if self.raw <= 0 {
            return Fx { raw: 0 };
        }
        let x: u128 = (self.raw as u128) * 65536;
        let mut lo: u64 = 0;
        let mut hi: u64 = 0x200_0000_0000;
        while lo + 1 < hi
            invariant
                lo < hi,
                hi <= 0x200_0000_0000,
                (lo as int) * (lo as int) <= x as int,
                (x as int) < (hi as int) * (hi as int),
            decreases hi - lo,
        {
            let mid: u64 = lo + (hi - lo) / 2;
            proof {
                lemma_mul_magnitude(mid as int, mid as int, 0x200_0000_0000);
            }
            if (mid as u128) * (mid as u128) <= x {
                lo = mid;
            } else {
                hi = mid;
            }
        }
        proof {
            assert(is_isqrt(lo as int, x as int));
            assert(exists|r: int| is_isqrt(r, x as int));
            lemma_isqrt_unique(spec_isqrt(x as int), lo as int, x as int);
        }
        Fx { raw: lo as i64 }
    }

    pub open spec fn spec_abs(a: Fx) -> Fx {
        if a.raw >= 0 {
            a
        } else {
            Fx::spec_neg(a)
        }
    }

    /// Absolute value.
    pub fn abs(self) -> (r: Fx)
        requires
            self.wf(),
        ensures
            r == Fx::spec_abs(self),
            r.wf(),
    {
        if self.raw >= 0 {
            self
        } else {
            Fx { raw: -self.raw }
        }
    }

    pub open spec fn spec_trunc(a: Fx) -> int {
        tdiv(a.raw as int, 65536)
    }

    /// Integer part, truncated toward zero.
    pub fn trunc(self) -> (r: i64)
        requires
            self.wf(),
        ensures
            r as int == Fx::spec_trunc(self),
    {
        if self.raw >= 0 {
            ((self.raw as u64) / 65536) as i64
        } else {
            -((((-self.raw) as u64) / 65536) as i64)
        }
    }

    /// The scalar for the ratio `num / den`, truncated toward zero.
    pub fn from_ratio(num: i64, den: i64) -> (r: Fx)
        ensures
            r == Fx::spec_div(Fx::spec_from_int(num as int), Fx::spec_from_int(den as int)),
            r.wf(),
    {
        Fx::from_int(num).div(Fx::from_int(den))
    }
}

/// Magnitude of a raw value within the representable range.
fn abs_mag(x: i64) -> (r: u64)
    requires
        -MAX_RAW <= x <= MAX_RAW,
    ensures
        r as int == (if x >= 0 { x as int } else { -(x as int) }),
{
    if x >= 0 {
        x as u64
    } else {
        (-x) as u64
    }
}

/// `r` is the integer square root of `x`.
pub open spec fn is_isqrt(r: int, x: int) -> bool {
    0 <= r && r * r <= x && x < (r + 1) * (r + 1)
}

/// The integer square root of `x` (for `x >= 0`).
pub open spec fn spec_isqrt(x: int) -> int {
    choose|r: int| is_isqrt(r, x)
}

/// The integer square root is unique.
pub proof fn lemma_isqrt_unique(r1: int, r2: int, x: int)
    requires
        is_isqrt(r1, x),
        is_isqrt(r2, x),
    ensures
        r1 == r2,
{
    if r1 < r2 {
        assert((r1 + 1) * (r1 + 1) <= r2 * r2) by (nonlinear_arith)
            requires
                0 <= r1,
                0 <= r2,
                r1 < r2,
        ;
    }
    if r2 < r1 {
        assert((r2 + 1) * (r2 + 1) <= r1 * r1) by (nonlinear_arith)
            requires
                0 <= r1,
                0 <= r2,
                r2 < r1,
        ;
    }
}

/// Division truncating toward zero is monotone in the dividend.
pub proof fn lemma_tdiv_monotone(p1: int, p2: int, q: int)
    requires
        p1 <= p2,
        q > 0,
    ensures
        tdiv(p1, q) <= tdiv(p2, q),
{
    if p1 >= 0 {
        vstd::arithmetic::div_mod::lemma_div_is_ordered(p1, p2, q);
    } else if p2 < 0 {
        vstd::arithmetic::div_mod::lemma_div_is_ordered(-p2, -p1, q);
    } else {
        vstd::arithmetic::div_mod::lemma_div_pos_is_pos(-p1, q);
        vstd::arithmetic::div_mod::lemma_div_pos_is_pos(p2, q);
    }
}

/// Negating a factor negates the product exactly, saturation included.
pub proof fn lemma_mul_neg_left(a: Fx, b: Fx)
    requires
        a.wf(),
    ensures
        Fx::spec_mul(Fx::spec_neg(a), b) == Fx::spec_neg(Fx::spec_mul(a, b)),
{
    assert((-(a.raw as int)) * (b.raw as int) == -((a.raw as int) * (b.raw as int)))
        by (nonlinear_arith);
}

/// Negating both terms negates the sum exactly, saturation included.
pub proof fn lemma_add_neg(a: Fx, b: Fx)
    requires
        a.wf(),
        b.wf(),
    ensures
        Fx::spec_add(Fx::spec_neg(a), Fx::spec_neg(b)) == Fx::spec_neg(Fx::spec_add(a, b)),
{
}

/// A product of bounded factors is bounded.
proof fn lemma_mul_magnitude(a: int, b: int, m: int)
    requires
        -m <= a <= m,
        -m <= b <= m,
        0 <= m,
    ensures
        -(m * m) <= a * b <= m * m,
{
    assert(-(m * m) <= a * b <= m * m) by (nonlinear_arith)
        requires
            -m <= a <= m,
            -m <= b <= m,
            0 <= m,
    ;
}

/// Clamp a wide intermediate into the representable raw range.
fn clamp_raw(s: i128) -> (r: i64)
    ensures
        r == sat(s as int),
{
    if s > MAX_RAW as i128 {
        MAX_RAW
    } else if s < -MAX_RAW as i128 {
        -MAX_RAW
    } else {
        s as i64
    }
}

} // verus!
