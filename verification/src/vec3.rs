//! Three-component vectors over the fixed-point scalars.
//!
//! `Vec3` carries points, directions and linear RGB colors. Every method is
//! pinned to a specification mirror built from the scalar specifications, so
//! contracts further up can state results exactly.

use vstd::prelude::*;
use crate::fixed::{
    fx_add, fx_add_spec, fx_div, fx_div_spec, fx_mul, fx_mul_spec, fx_neg, fx_neg_spec, fx_sqrt,
    fx_sqrt_spec, fx_sub, fx_sub_spec,
};

verus! {

#[derive(Clone, Copy, PartialEq, Eq, Structural, Debug)]
pub struct Vec3 {
    pub x: i64,
    pub y: i64,
    pub z: i64,
}

impl Vec3 {
    pub open spec fn vadd_spec(self, o: Vec3) -> Vec3 {
        Vec3 { x: fx_add_spec(self.x, o.x), y: fx_add_spec(self.y, o.y), z: fx_add_spec(
            self.z,
            o.z,
        ) }
    }

    pub open spec fn vsub_spec(self, o: Vec3) -> Vec3 {
        Vec3 { x: fx_sub_spec(self.x, o.x), y: fx_sub_spec(self.y, o.y), z: fx_sub_spec(
            self.z,
            o.z,
        ) }
    }

    pub open spec fn vneg_spec(self) -> Vec3 {
        Vec3 { x: fx_neg_spec(self.x), y: fx_neg_spec(self.y), z: fx_neg_spec(self.z) }
    }

    /// Componentwise product, used to filter one color by another.
    pub open spec fn cmul_spec(self, o: Vec3) -> Vec3 {
        Vec3 { x: fx_mul_spec(self.x, o.x), y: fx_mul_spec(self.y, o.y), z: fx_mul_spec(
            self.z,
            o.z,
        ) }
    }

    pub open spec fn scale_spec(self, s: i64) -> Vec3 {
        Vec3 { x: fx_mul_spec(self.x, s), y: fx_mul_spec(self.y, s), z: fx_mul_spec(self.z, s) }
    }

    pub open spec fn dot_spec(self, o: Vec3) -> i64 {
        fx_add_spec(
            fx_add_spec(fx_mul_spec(self.x, o.x), fx_mul_spec(self.y, o.y)),
            fx_mul_spec(self.z, o.z),
        )
    }

    pub open spec fn cross_spec(self, o: Vec3) -> Vec3 {
        Vec3 {
            x: fx_sub_spec(fx_mul_spec(self.y, o.z), fx_mul_spec(self.z, o.y)),
            y: fx_sub_spec(fx_mul_spec(self.z, o.x), fx_mul_spec(self.x, o.z)),
            z: fx_sub_spec(fx_mul_spec(self.x, o.y), fx_mul_spec(self.y, o.x)),
        }
    }

    pub open spec fn length_squared_spec(self) -> i64 {
        self.dot_spec(self)
    }

    pub open spec fn length_spec(self) -> i64 {
        fx_sqrt_spec(self.length_squared_spec())
    }

    /// The vector scaled to unit length; the zero vector (and any vector whose
    /// squared length underflows to zero) stays zero.
    pub open spec fn normalize_spec(self) -> Vec3 {
        let l = self.length_spec();
        if l == 0 {
            Vec3 { x: 0, y: 0, z: 0 }
        } else {
            Vec3 { x: fx_div_spec(self.x, l), y: fx_div_spec(self.y, l), z: fx_div_spec(
                self.z,
                l,
            ) }
        }
    }

    /// Componentwise division by a scalar, with the scalar conventions of
    /// `fx_div_spec`.
    pub open spec fn sdiv_spec(self, s: i64) -> Vec3 {
        Vec3 { x: fx_div_spec(self.x, s), y: fx_div_spec(self.y, s), z: fx_div_spec(self.z, s) }
    }

    /// Component along axis `i` (0, 1, 2 for x, y, z).
    pub open spec fn comp_spec(self, i: usize) -> i64 {
        if i == 0 {
            self.x
        } else if i == 1 {
            self.y
        } else {
            self.z
        }
    }

    pub fn new(x: i64, y: i64, z: i64) -> (r: Vec3)
        ensures
            r == (Vec3 { x, y, z }),
    {
        Vec3 { x, y, z }
    }

    pub fn zero() -> (r: Vec3)
        ensures
            r == (Vec3 { x: 0, y: 0, z: 0 }),
    {
        Vec3 { x: 0, y: 0, z: 0 }
    }

    pub fn vadd(self, o: Vec3) -> (r: Vec3)
        ensures
            r == self.vadd_spec(o),
    {
        Vec3 { x: fx_add(self.x, o.x), y: fx_add(self.y, o.y), z: fx_add(self.z, o.z) }
    }

    pub fn vsub(self, o: Vec3) -> (r: Vec3)
        ensures
            r == self.vsub_spec(o),
    {
        Vec3 { x: fx_sub(self.x, o.x), y: fx_sub(self.y, o.y), z: fx_sub(self.z, o.z) }
    }

    pub fn vneg(self) -> (r: Vec3)
        ensures
            r == self.vneg_spec(),
    {
        Vec3 { x: fx_neg(self.x), y: fx_neg(self.y), z: fx_neg(self.z) }
    }

    pub fn cmul(self, o: Vec3) -> (r: Vec3)
        ensures
            r == self.cmul_spec(o),
    {
        Vec3 { x: fx_mul(self.x, o.x), y: fx_mul(self.y, o.y), z: fx_mul(self.z, o.z) }
    }

    pub fn scale(self, s: i64) -> (r: Vec3)
        ensures
            r == self.scale_spec(s),
    {
        Vec3 { x: fx_mul(self.x, s), y: fx_mul(self.y, s), z: fx_mul(self.z, s) }
    }

    pub fn dot(self, o: Vec3) -> (r: i64)
        ensures
            r == self.dot_spec(o),
    {
        fx_add(fx_add(fx_mul(self.x, o.x), fx_mul(self.y, o.y)), fx_mul(self.z, o.z))
    }

    pub fn cross(self, o: Vec3) -> (r: Vec3)
        ensures
            r == self.cross_spec(o),
    {
        Vec3 {
            x: fx_sub(fx_mul(self.y, o.z), fx_mul(self.z, o.y)),
            y: fx_sub(fx_mul(self.z, o.x), fx_mul(self.x, o.z)),
            z: fx_sub(fx_mul(self.x, o.y), fx_mul(self.y, o.x)),
        }
    }

    pub fn length_squared(self) -> (r: i64)
        ensures
            r == self.length_squared_spec(),
    {
        self.dot(self)
    }

    pub fn length(self) -> (r: i64)
        ensures
            r == self.length_spec(),
    {
        fx_sqrt(self.length_squared())
    }

    pub fn normalize(self) -> (r: Vec3)
        ensures
            r == self.normalize_spec(),
    {
        let l: i64 = self.length();
        if l == 0 {
            Vec3 { x: 0, y: 0, z: 0 }
        } else {
            Vec3 { x: fx_div(self.x, l), y: fx_div(self.y, l), z: fx_div(self.z, l) }
        }
    }

    pub fn sdiv(self, s: i64) -> (r: Vec3)
        ensures
            r == self.sdiv_spec(s),
    {
        Vec3 { x: fx_div(self.x, s), y: fx_div(self.y, s), z: fx_div(self.z, s) }
    }

    pub fn comp(self, i: usize) -> (r: i64)
        ensures
            r == self.comp_spec(i),
    {
        if i == 0 {
            self.x
        } else if i == 1 {
            self.y
        } else {
            self.z
        }
    }
}

/// A squared length is non-negative.
pub proof fn lemma_length_squared_nonneg(v: Vec3)
    ensures
        v.length_squared_spec() >= 0,
{
    crate::fixed::lemma_fx_square_nonneg(v.x);
    crate::fixed::lemma_fx_square_nonneg(v.y);
    crate::fixed::lemma_fx_square_nonneg(v.z);
}

/// The unit vector along axis `i` scaled by `s`: the outward normal of an
/// axis-aligned face.
pub open spec fn axis_vec_spec(i: usize, s: i64) -> Vec3 {
    if i == 0 {
        Vec3 { x: s, y: 0, z: 0 }
    } else if i == 1 {
        Vec3 { x: 0, y: s, z: 0 }
    } else {
        Vec3 { x: 0, y: 0, z: s }
    }
}

pub fn axis_vec(i: usize, s: i64) -> (r: Vec3)
    ensures
        r == axis_vec_spec(i, s),
{
    if i == 0 {
        Vec3 { x: s, y: 0, z: 0 }
    } else if i == 1 {
        Vec3 { x: 0, y: s, z: 0 }
    } else {
        Vec3 { x: 0, y: 0, z: s }
    }
}

} // verus!
