//! Rays, transforms, the caller-seeded random source, and the vector
//! formulas the integrators share: mirror reflection, Snell refraction,
//! Schlick reflectance and uniform points on the unit sphere.

use vstd::prelude::*;
use crate::fixed::{
    fx_add, fx_add_spec, fx_cos, fx_cos_spec, fx_div, fx_div_spec, fx_min, fx_min_spec, fx_mul,
    fx_mul_spec, fx_neg, fx_neg_spec, fx_pow, fx_pow_spec, fx_sin, fx_sin_spec, fx_sqrt,
    fx_sqrt_spec, fx_sub, fx_sub_spec, FX_ONE, FX_TAU,
};
use crate::vec3::Vec3;

verus! {

/// A parametric ray `origin + t * direction`; the direction need not be unit
/// length, and callers normalize where its magnitude matters.
#[derive(Clone, Copy, PartialEq, Eq, Structural, Debug)]
pub struct Ray {
    pub origin: Vec3,
    pub direction: Vec3,
}

impl Ray {
    pub open spec fn at_spec(self, t: i64) -> Vec3 {
        self.origin.vadd_spec(self.direction.scale_spec(t))
    }

    pub fn new(origin: Vec3, direction: Vec3) -> (r: Ray)
        ensures
            r == (Ray { origin, direction }),
    {
        Ray { origin, direction }
    }

    pub fn at(self, t: i64) -> (r: Vec3)
        ensures
            r == self.at_spec(t),
    {
        self.origin.vadd(self.direction.scale(t))
    }
}

/// Position, orientation and scale. The orientation is held as its
/// right/up/forward orthonormal basis, the three unit vectors a rotation
/// would be queried for.
#[derive(Clone, Copy, PartialEq, Eq, Structural, Debug)]
pub struct Transform {
    pub position: Vec3,
    pub right: Vec3,
    pub up: Vec3,
    pub forward: Vec3,
    pub scale: Vec3,
}

impl Transform {
    /// The identity pose: at the origin, looking along negative z.
    pub open spec fn identity_spec() -> Transform {
        Transform {
            position: Vec3 { x: 0, y: 0, z: 0 },
            right: Vec3 { x: FX_ONE, y: 0, z: 0 },
            up: Vec3 { x: 0, y: FX_ONE, z: 0 },
            forward: Vec3 { x: 0, y: 0, z: (-FX_ONE) as i64 },
            scale: Vec3 { x: FX_ONE, y: FX_ONE, z: FX_ONE },
        }
    }

    pub fn identity() -> (r: Transform)
        ensures
            r == Transform::identity_spec(),
    {
        Transform {
            position: Vec3 { x: 0, y: 0, z: 0 },
            right: Vec3 { x: FX_ONE, y: 0, z: 0 },
            up: Vec3 { x: 0, y: FX_ONE, z: 0 },
            forward: Vec3 { x: 0, y: 0, z: -FX_ONE },
            scale: Vec3 { x: FX_ONE, y: FX_ONE, z: FX_ONE },
        }
    }
}

/// A deterministic random source the caller seeds, threaded through every
/// stochastic choice so that a render is a pure function of its inputs.
#[derive(Clone, Copy, PartialEq, Eq, Structural, Debug)]
pub struct RandomSource {
    pub state: u64,
}

/// One step of the xorshift generator behind `RandomSource`.
pub open spec fn next_state_spec(s: u64) -> u64 {
    let a = s ^ (s << 13);
    let b = a ^ (a >> 7);
    b ^ (b << 17)
}

/// A scalar in `[0, 1)` read from a generator state.
pub open spec fn unit_from_state(s: u64) -> i64 {
    (s % 65536) as i64
}

/// A scalar in `[-1, 1]` read from a generator state.
pub open spec fn sym_from_state(s: u64) -> i64 {
    ((s % 131073) - 65536) as i64
}

impl RandomSource {
    /// Seeds the generator; a zero seed is replaced by a fixed odd word,
    /// since the all-zero state is a fixed point of the xorshift step.
    pub fn new(seed: u64) -> (r: RandomSource)
        ensures
            seed != 0 ==> r.state == seed,
            seed == 0 ==> r.state == 0x9E3779B97F4A7C15u64,
    {
        if seed == 0 {
            RandomSource { state: 0x9E3779B97F4A7C15u64 }
        } else {
            RandomSource { state: seed }
        }
    }

    /// Advances the generator and returns the new state word.
    pub fn next_word(&mut self) -> (r: u64)
        ensures
            final(self).state == next_state_spec(old(self).state),
            r == next_state_spec(old(self).state),
    {
        let a: u64 = self.state ^ (self.state << 13);
        let b: u64 = a ^ (a >> 7);
        let c: u64 = b ^ (b << 17);
        self.state = c;
        c
    }

    /// Draws a scalar uniform in `[0, 1)`.
    pub fn next_unit(&mut self) -> (r: i64)
        ensures
            final(self).state == next_state_spec(old(self).state),
            r == unit_from_state(next_state_spec(old(self).state)),
            0 <= r < FX_ONE,
    {
        let w: u64 = self.next_word();
        (w % 65536) as i64
    }

    /// Draws a scalar uniform in `[-1, 1]`.
    pub fn next_sym(&mut self) -> (r: i64)
        ensures
            final(self).state == next_state_spec(old(self).state),
            r == sym_from_state(next_state_spec(old(self).state)),
            -FX_ONE <= r <= FX_ONE,
    {
        let w: u64 = self.next_word();
        (w % 131073) as i64 - 65536
    }
}

/// Mirror reflection of `v` about the unit normal `n`:
/// `v - 2 * (v . n) * n`.
pub open spec fn reflect_spec(v: Vec3, n: Vec3) -> Vec3 {
    v.vsub_spec(n.scale_spec(fx_mul_spec(131072, v.dot_spec(n))))
}

pub fn reflect(v: Vec3, n: Vec3) -> (r: Vec3)
    ensures
        r == reflect_spec(v, n),
{
    v.vsub(n.scale(fx_mul(131072, v.dot(n))))
}

/// Snell refraction of the unit direction `uv` through the unit normal `n`
/// with refraction ratio `etai_over_etat`. Callers rule out total internal
/// reflection first; at such inputs the square root underflows to zero and
/// the result degenerates to the in-plane component.
pub open spec fn refract_spec(uv: Vec3, n: Vec3, etai_over_etat: i64) -> Vec3 {
    let cos_theta = fx_min_spec(uv.vneg_spec().dot_spec(n), FX_ONE);
    let r_out_perp = uv.vadd_spec(n.scale_spec(cos_theta)).scale_spec(etai_over_etat);
    let k = fx_sub_spec(FX_ONE, r_out_perp.length_squared_spec());
    let r_out_parallel = n.scale_spec(fx_neg_spec(fx_sqrt_spec(k)));
    r_out_perp.vadd_spec(r_out_parallel)
}

pub fn refract(uv: Vec3, n: Vec3, etai_over_etat: i64) -> (r: Vec3)
    ensures
        r == refract_spec(uv, n, etai_over_etat),
{
    let cos_theta: i64 = fx_min(uv.vneg().dot(n), FX_ONE);
    let r_out_perp: Vec3 = uv.vadd(n.scale(cos_theta)).scale(etai_over_etat);
    let k: i64 = fx_sub(FX_ONE, r_out_perp.length_squared());
    let r_out_parallel: Vec3 = n.scale(fx_neg(fx_sqrt(k)));
    r_out_perp.vadd(r_out_parallel)
}

/// Schlick's polynomial approximation of the Fresnel reflectance:
/// `r0 + (1 - r0) * (1 - cosine)^5` with `r0 = ((1 - ri) / (1 + ri))^2`.
pub open spec fn reflectance_spec(cosine: i64, ref_idx: i64) -> i64 {
    let r0_root = fx_div_spec(fx_sub_spec(FX_ONE, ref_idx), fx_add_spec(FX_ONE, ref_idx));
    let r0 = fx_mul_spec(r0_root, r0_root);
    fx_add_spec(r0, fx_mul_spec(fx_sub_spec(FX_ONE, r0), fx_pow_spec(fx_sub_spec(FX_ONE, cosine), 5)))
}

pub fn reflectance(cosine: i64, ref_idx: i64) -> (r: i64)
    ensures
        r == reflectance_spec(cosine, ref_idx),
{
    let r0_root: i64 = fx_div(fx_sub(FX_ONE, ref_idx), fx_add(FX_ONE, ref_idx));
    let r0: i64 = fx_mul(r0_root, r0_root);
    fx_add(r0, fx_mul(fx_sub(FX_ONE, r0), fx_pow(fx_sub(FX_ONE, cosine), 5)))
}

/// The point on the unit sphere drawn from a generator state: a latitude
/// uniform in `[-1, 1]` and a longitude uniform in `[0, tau)`, consuming two
/// draws. Returns the point and the state after the draws.
pub open spec fn random_unit_vector_spec(s: u64) -> (Vec3, u64) {
    let s1 = next_state_spec(s);
    let z = sym_from_state(s1);
    let s2 = next_state_spec(s1);
    let phi = fx_mul_spec(unit_from_state(s2), FX_TAU);
    let rr = fx_sqrt_spec(fx_sub_spec(FX_ONE, fx_mul_spec(z, z)));
    (
        Vec3 {
            x: fx_mul_spec(rr, fx_cos_spec(phi)),
            y: fx_mul_spec(rr, fx_sin_spec(phi)),
            z: z,
        },
        s2,
    )
}

/// Draws a point approximately uniform on the unit sphere surface, used for
/// Lambertian scatter and metal roughness perturbation.
pub fn random_unit_vector(rng: &mut RandomSource) -> (r: Vec3)
    ensures
        r == random_unit_vector_spec(old(rng).state).0,
        final(rng).state == random_unit_vector_spec(old(rng).state).1,
{
    let z: i64 = rng.next_sym();
    let phi: i64 = fx_mul(rng.next_unit(), FX_TAU);
    let rr: i64 = fx_sqrt(fx_sub(FX_ONE, fx_mul(z, z)));
    Vec3 { x: fx_mul(rr, fx_cos(phi)), y: fx_mul(rr, fx_sin(phi)), z: z }
}

} // verus!
