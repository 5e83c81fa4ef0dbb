//! Seedable random sampling utilities.
//!
//! Every sampling function draws from an explicit [`RandomSource`] value
//! threaded through the call, so renders are deterministic for a fixed seed
//! and parallel workers can each own an independent source.

use vstd::prelude::*;

use crate::fixed::Fx;
use crate::vec3::lemma_dot_neg_left;
use crate::vec3::spec_dot;
use crate::vec3::spec_length;
use crate::vec3::spec_vneg;
use crate::vec3::Vec3;

verus! {

/// Multiplier of the linear congruential step.
pub const LCG_MUL: u64 = 6364136223846793005;

/// Increment of the linear congruential step.
pub const LCG_ADD: u64 = 1442695040888963407;

/// How many candidates rejection sampling examines before falling back to
/// the zero vector (each candidate is accepted with probability about 52%,
/// so the fallback is never reached in practice).
pub const MAX_REJECTION_TRIES: u32 = 64;

/// A seedable pseudo-random source: a 64-bit linear congruential generator.
#[derive(Clone, Copy, Debug, PartialEq, Eq, Structural)]
pub struct RandomSource {
    pub state: u64,
}

/// The generator state after one step.
#[verifier::opaque]
pub open spec fn spec_next_state(s: u64) -> u64 {
    ((s * LCG_MUL + LCG_ADD) % 0x1_0000_0000_0000_0000) as u64
}

/// The 32 bits drawn from a generator state.
pub open spec fn spec_bits(s: u64) -> u32 {
    (s / 0x1_0000_0000) as u32
}

/// The raw offset value drawn by `get_random_offset` from state `s`.
pub open spec fn spec_offset_raw(s: u64) -> int {
    spec_bits(spec_next_state(s)) % 131073 - 65536
}

/// The raw value in `[0, 1]` drawn by `get_random_float` from state `s`.
pub open spec fn spec_float_raw(s: u64) -> int {
    (spec_bits(spec_next_state(s)) as int) % 65537
}

impl RandomSource {
    /// A source that will produce the stream determined by `seed`.
    pub fn new(seed: u64) -> (r: RandomSource)
        ensures
            r.state == seed,
    {
        RandomSource { state: seed }
    }

    /// Advance the generator one step and draw its top 32 bits.
    pub fn next_bits(&mut self) -> (r: u32)
        ensures
            final(self).state == spec_next_state(old(self).state),
            r == spec_bits(final(self).state),
    {
        proof {
            reveal(spec_next_state);
            lemma_lcg_product_fits(self.state as int);
        }
        let t: u128 = (self.state as u128) * (LCG_MUL as u128) + (LCG_ADD as u128);
        let ns: u64 = (t % 0x1_0000_0000_0000_0000) as u64;
        self.state = ns;
        (ns / 0x1_0000_0000) as u32
    }
}

/// The LCG step cannot overflow its 128-bit intermediate.
proof fn lemma_lcg_product_fits(s: int)
    requires
        0 <= s <= 0xFFFF_FFFF_FFFF_FFFF,
    ensures
        s * LCG_MUL + LCG_ADD <= 0xFFFF_FFFF_FFFF_FFFF_FFFF_FFFF_FFFF_FFFF,
{
    assert(s * (LCG_MUL as int) <= 0xFFFF_FFFF_FFFF_FFFF * (LCG_MUL as int))
        by (nonlinear_arith)
        requires
            0 <= s <= 0xFFFF_FFFF_FFFF_FFFF,
    ;
}

/// A uniform scalar in `[-1, 1]`, used as pixel jitter and as a quadrature
/// building block.
pub fn get_random_offset(rng: &mut RandomSource) -> (r: Fx)
    ensures
        r.raw == spec_offset_raw(old(rng).state),
        -65536 <= r.raw <= 65536,
        r.wf(),
        final(rng).state == spec_next_state(old(rng).state),
{
    let b: u32 = rng.next_bits();
    let m: u32 = b % 131073;
    Fx { raw: m as i64 - 65536 }
}

/// A uniform scalar in `[0, 1]`.
pub fn get_random_float(rng: &mut RandomSource) -> (r: Fx)
    ensures
        r.raw == spec_float_raw(old(rng).state),
        0 <= r.raw <= 65536,
        r.wf(),
        final(rng).state == spec_next_state(old(rng).state),
{
    let b: u32 = rng.next_bits();
    let m: u32 = b % 65537;
    Fx { raw: m as i64 }
}

/// Every component lies in `[-1, 1]` and the length is at most 1.
pub open spec fn in_unit_ball(v: Vec3) -> bool {
    &&& -65536 <= v.x.raw <= 65536
    &&& -65536 <= v.y.raw <= 65536
    &&& -65536 <= v.z.raw <= 65536
    &&& spec_length(v).raw <= 65536
}

/// The scalar drawn by `get_random_offset` from state `s`.
pub open spec fn spec_offset_fx(s: u64) -> Fx {
    Fx { raw: spec_offset_raw(s) as i64 }
}

/// The vector and final generator state of a round of ball rejection
/// sampling from state `s` with `fuel` rounds left: draw three components,
/// accept the vector once its length is at most 1, and give the zero
/// vector when the fuel runs out.
pub open spec fn spec_ball_sample(s: u64, fuel: nat) -> (Vec3, u64)
    decreases fuel,
{
    if fuel == 0 {
        (Vec3::spec_zero(), s)
    } else {
        let s1 = spec_next_state(s);
        let s2 = spec_next_state(s1);
        let s3 = spec_next_state(s2);
        let v = Vec3 { x: spec_offset_fx(s), y: spec_offset_fx(s1), z: spec_offset_fx(s2) };
        if spec_length(v).raw <= 65536 {
            (v, s3)
        } else {
            spec_ball_sample(s3, (fuel - 1) as nat)
        }
    }
}

/// Rejection sampling: draw a vector with each component uniform in
/// `[-1, 1]` and accept it once its length is at most 1. After
/// `MAX_REJECTION_TRIES` rejections the zero vector is returned, a
/// deterministic degenerate fallback.
#[verifier::rlimit(100)]
#[verifier::loop_isolation(false)]
pub fn random_in_sphere(rng: &mut RandomSource) -> (r: Vec3)
    ensures
        in_unit_ball(r),
        r.wf(),
        r == spec_ball_sample(old(rng).state, MAX_REJECTION_TRIES as nat).0,
        final(rng).state == spec_ball_sample(old(rng).state, MAX_REJECTION_TRIES as nat).1,
{
    let ghost s0 = rng.state;
    let mut tries: u32 = 0;
    while tries < MAX_REJECTION_TRIES
        invariant
            tries <= MAX_REJECTION_TRIES,
            spec_ball_sample(s0, MAX_REJECTION_TRIES as nat) == spec_ball_sample(
                rng.state,
                (MAX_REJECTION_TRIES - tries) as nat,
            ),
        decreases MAX_REJECTION_TRIES - tries,
    {
        let ghost c = rng.state;
        let ghost f = (MAX_REJECTION_TRIES - tries) as nat;
        let v = Vec3 {
            x: get_random_offset(rng),
            y: get_random_offset(rng),
            z: get_random_offset(rng),
        };
        let len = v.length();
        proof {
            assert(v == (Vec3 {
                x: spec_offset_fx(c),
                y: spec_offset_fx(spec_next_state(c)),
                z: spec_offset_fx(spec_next_state(spec_next_state(c))),
            }));
            assert(spec_ball_sample(c, f) == (if spec_length(v).raw <= 65536 {
                (v, rng.state)
            } else {
                spec_ball_sample(rng.state, (f - 1) as nat)
            }));
        }
        if len.raw <= 65536 {
            return v;
        }
        tries = tries + 1;
    }
    Vec3::zero()
}

/// The hemisphere sample drawn from state `s`: the ball sample, negated
/// when its dot product with `n` is negative.
pub open spec fn spec_hemisphere_sample(s: u64, n: Vec3) -> (Vec3, u64) {
    let b = spec_ball_sample(s, MAX_REJECTION_TRIES as nat);
    if spec_dot(b.0, n).raw < 0 {
        (spec_vneg(b.0), b.1)
    } else {
        b
    }
}

/// A vector in the hemisphere that `n` points into: a unit-ball sample,
/// negated when its dot product with `n` is negative.
pub fn random_in_hemisphere(rng: &mut RandomSource, n: Vec3) -> (r: Vec3)
    requires
        n.wf(),
    ensures
        in_unit_ball(r),
        r.wf(),
        spec_dot(r, n).raw >= 0,
        r == spec_hemisphere_sample(old(rng).state, n).0,
        final(rng).state == spec_hemisphere_sample(old(rng).state, n).1,
{
    let v = random_in_sphere(rng);
    let d = crate::vec3::dot(v, n);
    if d.raw < 0 {
        proof {
            lemma_dot_neg_left(v, n);
            lemma_len_sq_neg(v);
        }
        v.neg()
    } else {
        v
    }
}

/// The vector and final generator state of a round of disk rejection
/// sampling from state `s` with `fuel` rounds left: as the ball sample,
/// but drawing only two components with the third fixed at zero.
pub open spec fn spec_disk_sample(s: u64, fuel: nat) -> (Vec3, u64)
    decreases fuel,
{
    if fuel == 0 {
        (Vec3::spec_zero(), s)
    } else {
        let s1 = spec_next_state(s);
        let s2 = spec_next_state(s1);
        let v = Vec3 { x: spec_offset_fx(s), y: spec_offset_fx(s1), z: Fx { raw: 0 } };
        if spec_length(v).raw <= 65536 {
            (v, s2)
        } else {
            spec_disk_sample(s2, (fuel - 1) as nat)
        }
    }
}

/// A vector in the unit disk of the lens plane: a unit-ball sample with the
/// z component fixed at zero, used for depth-of-field origin jitter.
#[verifier::rlimit(100)]
#[verifier::loop_isolation(false)]
pub fn random_in_unit_disk(rng: &mut RandomSource) -> (r: Vec3)
    ensures
        in_unit_ball(r),
        r.z.raw == 0,
        r.wf(),
        r == spec_disk_sample(old(rng).state, MAX_REJECTION_TRIES as nat).0,
        final(rng).state == spec_disk_sample(old(rng).state, MAX_REJECTION_TRIES as nat).1,
{
    let ghost s0 = rng.state;
    let mut tries: u32 = 0;
    while tries < MAX_REJECTION_TRIES
        invariant
            tries <= MAX_REJECTION_TRIES,
            spec_disk_sample(s0, MAX_REJECTION_TRIES as nat) == spec_disk_sample(
                rng.state,
                (MAX_REJECTION_TRIES - tries) as nat,
            ),
        decreases MAX_REJECTION_TRIES - tries,
    {
        let ghost c = rng.state;
        let ghost f = (MAX_REJECTION_TRIES - tries) as nat;
        let v = Vec3 { x: get_random_offset(rng), y: get_random_offset(rng), z: Fx::zero() };
        let len = v.length();
        proof {
            assert(v == (Vec3 {
                x: spec_offset_fx(c),
                y: spec_offset_fx(spec_next_state(c)),
                z: Fx { raw: 0 },
            }));
            assert(spec_disk_sample(c, f) == (if spec_length(v).raw <= 65536 {
                (v, rng.state)
            } else {
                spec_disk_sample(rng.state, (f - 1) as nat)
            }));
        }
        if len.raw <= 65536 {
            return v;
        }
        tries = tries + 1;
    }
    Vec3::zero()
}

/// Negating a vector keeps its squared length, hence its length.
pub proof fn lemma_len_sq_neg(v: Vec3)
    requires
        v.wf(),
    ensures
        crate::vec3::spec_len_sq(spec_vneg(v)) == crate::vec3::spec_len_sq(v),
        spec_length(spec_vneg(v)) == spec_length(v),
{
    assert((-(v.x.raw as int)) * (-(v.x.raw as int)) == (v.x.raw as int) * (v.x.raw as int))
        by (nonlinear_arith);
    assert((-(v.y.raw as int)) * (-(v.y.raw as int)) == (v.y.raw as int) * (v.y.raw as int))
        by (nonlinear_arith);
    assert((-(v.z.raw as int)) * (-(v.z.raw as int)) == (v.z.raw as int) * (v.z.raw as int))
        by (nonlinear_arith);
}

} // verus!
