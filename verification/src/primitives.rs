//! Geometric primitives, their materials and lights.
//!
//! Each primitive owns one material and answers the single capability
//! "intersect this ray inside a parametric window", producing a uniform hit
//! record. Every intersection routine is pinned to an exact specification
//! mirror, and any accepted hit satisfies `t_min <= t <= t_max`.

use vstd::prelude::*;
use crate::fixed::{
    fx_div, fx_div_spec, fx_mul, fx_mul_spec, fx_neg, fx_neg_spec, fx_sqrt, fx_sqrt_spec, fx_sub,
    fx_sub_spec, FX_ONE,
};
use crate::vec3::{axis_vec, axis_vec_spec, Vec3};
use crate::math::Ray;

verus! {

#[derive(Clone, Copy, PartialEq, Eq, Structural, Debug)]
pub enum MaterialType {
    Lambertian,
    Metal,
    Dielectric,
}

/// A value-type surface description, copied into each primitive and into
/// every hit record. The color is linear RGB, conceptually in `[0, 1]` but
/// unclamped.
#[derive(Clone, Copy, PartialEq, Eq, Structural, Debug)]
pub struct Material {
    pub color: Vec3,
    pub specular: i64,
    pub shininess: i64,
    pub reflectivity: i64,
    pub roughness: i64,
    pub ior: i64,
    pub mat_type: MaterialType,
}

impl Material {
    /// A plain white Lambertian surface with a glass-like index of
    /// refraction.
    pub open spec fn default_spec() -> Material {
        Material {
            color: Vec3 { x: FX_ONE, y: FX_ONE, z: FX_ONE },
            specular: 32768,
            shininess: 2097152,
            reflectivity: 0,
            roughness: 0,
            ior: 98304,
            mat_type: MaterialType::Lambertian,
        }
    }
}

impl Default for Material {
    fn default() -> (r: Material)
        ensures
            r == Material::default_spec(),
    {
        Material {
            color: Vec3 { x: FX_ONE, y: FX_ONE, z: FX_ONE },
            specular: 32768,
            shininess: 2097152,
            reflectivity: 0,
            roughness: 0,
            ior: 98304,
            mat_type: MaterialType::Lambertian,
        }
    }
}

/// A single intersection: parametric distance, world-space point, outward
/// unit normal, and a copy of the hit material.
#[derive(Clone, Copy, PartialEq, Eq, Structural, Debug)]
pub struct HitRecord {
    pub t: i64,
    pub point: Vec3,
    pub normal: Vec3,
    pub material: Material,
}

#[derive(Clone, Copy, PartialEq, Eq, Structural, Debug)]
pub struct Sphere {
    pub center: Vec3,
    pub radius: i64,
    pub material: Material,
}

impl Sphere {
    /// The closest root of the ray-sphere quadratic inside the window,
    /// preferring the smaller root and falling back to the larger one.
    pub open spec fn intersect_spec(self, ray: Ray, t_min: i64, t_max: i64) -> Option<HitRecord> {
        let oc = ray.origin.vsub_spec(self.center);
        let a = ray.direction.length_squared_spec();
        let half_b = oc.dot_spec(ray.direction);
        let c = fx_sub_spec(oc.length_squared_spec(), fx_mul_spec(self.radius, self.radius));
        let discriminant = fx_sub_spec(fx_mul_spec(half_b, half_b), fx_mul_spec(a, c));
        if discriminant < 0 {
            None
        } else {
            let sqrtd = fx_sqrt_spec(discriminant);
            let root1 = fx_div_spec(fx_sub_spec(fx_neg_spec(half_b), sqrtd), a);
            let root = if root1 < t_min || t_max < root1 {
                fx_div_spec(fx_sub_spec(fx_neg_spec(half_b), fx_neg_spec(sqrtd)), a)
            } else {
                root1
            };
            if root < t_min || t_max < root {
                None
            } else {
                let point = ray.at_spec(root);
                let normal = point.vsub_spec(self.center).sdiv_spec(self.radius);
                Some(HitRecord { t: root, point, normal, material: self.material })
            }
        }
    }

    pub fn intersect(&self, ray: &Ray, t_min: i64, t_max: i64) -> (r: Option<HitRecord>)
        ensures
            r == self.intersect_spec(*ray, t_min, t_max),
            r is Some ==> t_min <= r.unwrap().t <= t_max,
    {
        let oc: Vec3 = ray.origin.vsub(self.center);
        let a: i64 = ray.direction.length_squared();
        let half_b: i64 = oc.dot(ray.direction);
        let c: i64 = fx_sub(oc.length_squared(), fx_mul(self.radius, self.radius));
        let discriminant: i64 = fx_sub(fx_mul(half_b, half_b), fx_mul(a, c));
        if discriminant < 0 {
            return None;
        }
        let sqrtd: i64 = fx_sqrt(discriminant);
        let mut root: i64 = fx_div(fx_sub(fx_neg(half_b), sqrtd), a);
        if root < t_min || t_max < root {
            root = fx_div(fx_sub(fx_neg(half_b), fx_neg(sqrtd)), a);
            if root < t_min || t_max < root {
                return None;
            }
        }
        let point: Vec3 = ray.at(root);
        let normal: Vec3 = point.vsub(self.center).sdiv(self.radius);
        Some(HitRecord { t: root, point, normal, material: self.material })
    }
}

#[derive(Clone, Copy, PartialEq, Eq, Structural, Debug)]
pub struct Plane {
    pub point: Vec3,
    pub normal: Vec3,
    pub material: Material,
}

impl Plane {
    /// The plane-equation solution inside the window. A denominator of zero
    /// (the near-parallel guard, one fixed-point ulp wide) rejects.
    pub open spec fn intersect_spec(self, ray: Ray, t_min: i64, t_max: i64) -> Option<HitRecord> {
        let denom = self.normal.dot_spec(ray.direction);
        if denom == 0 {
            None
        } else {
            let t = fx_div_spec(self.point.vsub_spec(ray.origin).dot_spec(self.normal), denom);
            if t_min <= t && t <= t_max {
                Some(
                    HitRecord {
                        t,
                        point: ray.at_spec(t),
                        normal: self.normal,
                        material: self.material,
                    },
                )
            } else {
                None
            }
        }
    }

    pub fn intersect(&self, ray: &Ray, t_min: i64, t_max: i64) -> (r: Option<HitRecord>)
        ensures
            r == self.intersect_spec(*ray, t_min, t_max),
            r is Some ==> t_min <= r.unwrap().t <= t_max,
    {
        let denom: i64 = self.normal.dot(ray.direction);
        if denom != 0 {
            let t: i64 = fx_div(self.point.vsub(ray.origin).dot(self.normal), denom);
            if t_min <= t && t <= t_max {
                return Some(
                    HitRecord { t, point: ray.at(t), normal: self.normal, material: self.material },
                );
            }
        }
        None
    }
}

#[derive(Clone, Copy, PartialEq, Eq, Structural, Debug)]
pub struct Cube {
    pub min: Vec3,
    pub max: Vec3,
    pub material: Material,
}

/// One step of the slab method: the running window after clipping against
/// the slabs of axes `i..3`, together with the normal of the latest entry
/// face, or `None` once the window empties.
pub open spec fn cube_slabs_spec(
    cube: Cube,
    ray: Ray,
    i: int,
    t_near: i64,
    t_far: i64,
    normal: Vec3,
) -> Option<(i64, i64, Vec3)>
    decreases 3 - i,
{
    if i >= 3 {
        Some((t_near, t_far, normal))
    } else {
        let o = ray.origin.comp_spec(i as usize);
        let d = ray.direction.comp_spec(i as usize);
        let mn = cube.min.comp_spec(i as usize);
        let mx = cube.max.comp_spec(i as usize);
        if d == 0 {
            if o < mn || o > mx {
                None
            } else {
                cube_slabs_spec(cube, ray, i + 1, t_near, t_far, normal)
            }
        } else {
            let ta = fx_div_spec(fx_sub_spec(mn, o), d);
            let tb = fx_div_spec(fx_sub_spec(mx, o), d);
            let lo = if ta > tb {
                tb
            } else {
                ta
            };
            let hi = if ta > tb {
                ta
            } else {
                tb
            };
            let sign = if ta > tb {
                FX_ONE
            } else {
                (-FX_ONE) as i64
            };
            let near2 = if lo > t_near {
                lo
            } else {
                t_near
            };
            let normal2 = if lo > t_near {
                axis_vec_spec(i as usize, sign)
            } else {
                normal
            };
            let far2 = if hi < t_far {
                hi
            } else {
                t_far
            };
            if near2 > far2 {
                None
            } else {
                cube_slabs_spec(cube, ray, i + 1, near2, far2, normal2)
            }
        }
    }
}

/// A unit vector along one coordinate axis, in either direction: the only
/// normals an axis-aligned face can carry.
pub open spec fn is_axis_unit_normal(n: Vec3) -> bool {
    ||| n == (Vec3 { x: FX_ONE, y: 0, z: 0 })
    ||| n == (Vec3 { x: (-FX_ONE) as i64, y: 0, z: 0 })
    ||| n == (Vec3 { x: 0, y: FX_ONE, z: 0 })
    ||| n == (Vec3 { x: 0, y: (-FX_ONE) as i64, z: 0 })
    ||| n == (Vec3 { x: 0, y: 0, z: FX_ONE })
    ||| n == (Vec3 { x: 0, y: 0, z: (-FX_ONE) as i64 })
}

impl Cube {
    /// The slab method: the entry point of the surviving window, with the
    /// axis-sign normal of the face that produced it. A ray whose window
    /// survives without any slab entry winning — one starting inside the
    /// box — is rejected, so every accepted hit carries a unit outward face
    /// normal.
    pub open spec fn intersect_spec(self, ray: Ray, t_min: i64, t_max: i64) -> Option<HitRecord> {
        match cube_slabs_spec(self, ray, 0, t_min, t_max, Vec3 { x: 0, y: 0, z: 0 }) {
            None => None,
            Some((t_near, t_far, normal)) => {
                if normal == (Vec3 { x: 0, y: 0, z: 0 }) {
                    None
                } else {
                    Some(
                        HitRecord {
                            t: t_near,
                            point: ray.at_spec(t_near),
                            normal,
                            material: self.material,
                        },
                    )
                }
            },
        }
    }

    pub fn intersect(&self, ray: &Ray, t_min: i64, t_max: i64) -> (r: Option<HitRecord>)
        ensures
            r == self.intersect_spec(*ray, t_min, t_max),
            t_min <= t_max && r is Some ==> t_min <= r.unwrap().t <= t_max,
            r is Some ==> is_axis_unit_normal(r.unwrap().normal),
    {
        let mut t_near: i64 = t_min;
        let mut t_far: i64 = t_max;
        let mut normal: Vec3 = Vec3::zero();
        let mut i: usize = 0;
        while i < 3
        invariant
            0 <= i <= 3,
            t_min <= t_near,
            t_far <= t_max,
            t_min <= t_max ==> t_near <= t_far,
            normal == (Vec3 { x: 0, y: 0, z: 0 }) || is_axis_unit_normal(normal),
            cube_slabs_spec(*self, *ray, 0, t_min, t_max, Vec3 { x: 0, y: 0, z: 0 })
                == cube_slabs_spec(*self, *ray, i as int, t_near, t_far, normal),
        decreases 3 - i,
        {
            let o: i64 = ray.origin.comp(i);
            let d: i64 = ray.direction.comp(i);
            let mn: i64 = self.min.comp(i);
            let mx: i64 = self.max.comp(i);
            if d == 0 {
                if o < mn || o > mx {
                    return None;
                }
            } else {
                let ta: i64 = fx_div(fx_sub(mn, o), d);
                let tb: i64 = fx_div(fx_sub(mx, o), d);
                let lo: i64 = if ta > tb {
                    tb
                } else {
                    ta
                };
                let hi: i64 = if ta > tb {
                    ta
                } else {
                    tb
                };
                let sign: i64 = if ta > tb {
                    FX_ONE
                } else {
                    -FX_ONE
                };
                if lo > t_near {
                    t_near = lo;
                    normal = axis_vec(i, sign);
                }
                if hi < t_far {
                    t_far = hi;
                }
                if t_near > t_far {
                    return None;
                }
            }
            i = i + 1;
        }
        if normal.x == 0 && normal.y == 0 && normal.z == 0 {
            None
        } else {
            Some(HitRecord { t: t_near, point: ray.at(t_near), normal, material: self.material })
        }
    }
}

/// The exact form of the on-surface law for spheres: any accepted hit lies
/// at its parametric distance along the ray, and its normal is the radial
/// offset from the center divided by the radius — the unit outward radial
/// direction, up to the rounding of the scalar quotient.
pub proof fn lemma_sphere_hit_radial(sp: Sphere, ray: Ray, t_min: i64, t_max: i64)
    ensures
        match sp.intersect_spec(ray, t_min, t_max) {
            Some(h) => {
                &&& h.point == ray.at_spec(h.t)
                &&& h.normal == h.point.vsub_spec(sp.center).sdiv_spec(sp.radius)
                &&& h.material == sp.material
                &&& t_min <= h.t <= t_max
            },
            None => true,
        },
{
}

/// Shrinking a sphere's acceptance window keeps any hit that still fits and
/// loses any that does not; it never produces a different hit.
pub proof fn lemma_sphere_window(sp: Sphere, ray: Ray, t_min: i64, c: i64, c2: i64)
    requires
        c <= c2,
    ensures
        match sp.intersect_spec(ray, t_min, c2) {
            None => sp.intersect_spec(ray, t_min, c) is None,
            Some(h) => (if h.t <= c {
                sp.intersect_spec(ray, t_min, c) == Some::<HitRecord>(h)
            } else {
                sp.intersect_spec(ray, t_min, c) is None
            }),
        },
{
    let oc = ray.origin.vsub_spec(sp.center);
    let a = ray.direction.length_squared_spec();
    let half_b = oc.dot_spec(ray.direction);
    let cc = fx_sub_spec(oc.length_squared_spec(), fx_mul_spec(sp.radius, sp.radius));
    let disc = fx_sub_spec(fx_mul_spec(half_b, half_b), fx_mul_spec(a, cc));
    if disc >= 0 {
        let sqrtd = fx_sqrt_spec(disc);
        crate::fixed::lemma_fx_sqrt_nonneg(disc);
        crate::vec3::lemma_length_squared_nonneg(ray.direction);
        let n1 = fx_sub_spec(fx_neg_spec(half_b), sqrtd);
        let n2 = fx_sub_spec(fx_neg_spec(half_b), fx_neg_spec(sqrtd));
        crate::fixed::lemma_fx_div_monotone_num(n1, n2, a);
    }
}

/// The same narrowing property for a plane: its solution does not depend on
/// the window at all.
pub proof fn lemma_plane_window(pl: Plane, ray: Ray, t_min: i64, c: i64, c2: i64)
    requires
        c <= c2,
    ensures
        match pl.intersect_spec(ray, t_min, c2) {
            None => pl.intersect_spec(ray, t_min, c) is None,
            Some(h) => (if h.t <= c {
                pl.intersect_spec(ray, t_min, c) == Some::<HitRecord>(h)
            } else {
                pl.intersect_spec(ray, t_min, c) is None
            }),
        },
{
}

/// The slab scan started at `i` with window `[near, far]` yields an entry
/// point no earlier than `near` and an exit no later than `far`.
pub proof fn lemma_cube_slabs_bounds(cu: Cube, ray: Ray, i: int, near: i64, far: i64, nm: Vec3)
    requires
        i <= 3,
    ensures
        match cube_slabs_spec(cu, ray, i, near, far, nm) {
            Some(out) => out.0 >= near && out.1 <= far && (near <= far ==> out.0 <= out.1),
            None => true,
        },
    decreases 3 - i,
{
    if i < 3 {
        let o = ray.origin.comp_spec(i as usize);
        let d = ray.direction.comp_spec(i as usize);
        let mn = cu.min.comp_spec(i as usize);
        let mx = cu.max.comp_spec(i as usize);
        if d == 0 {
            if !(o < mn || o > mx) {
                lemma_cube_slabs_bounds(cu, ray, i + 1, near, far, nm);
            }
        } else {
            let ta = fx_div_spec(fx_sub_spec(mn, o), d);
            let tb = fx_div_spec(fx_sub_spec(mx, o), d);
            let lo = if ta > tb {
                tb
            } else {
                ta
            };
            let hi = if ta > tb {
                ta
            } else {
                tb
            };
            let sign = if ta > tb {
                FX_ONE
            } else {
                (-FX_ONE) as i64
            };
            let near2 = if lo > near {
                lo
            } else {
                near
            };
            let normal2 = if lo > near {
                axis_vec_spec(i as usize, sign)
            } else {
                nm
            };
            let far2 = if hi < far {
                hi
            } else {
                far
            };
            if !(near2 > far2) {
                lemma_cube_slabs_bounds(cu, ray, i + 1, near2, far2, normal2);
            }
        }
    }
}

/// Shrinking the slab window keeps a surviving entry point that still fits,
/// with its face normal, and rejects any that does not.
pub proof fn lemma_cube_slabs_window(
    cu: Cube,
    ray: Ray,
    i: int,
    near: i64,
    far: i64,
    far2: i64,
    nm: Vec3,
)
    requires
        i <= 3,
        far <= far2,
        near <= far,
    ensures
        match cube_slabs_spec(cu, ray, i, near, far2, nm) {
            None => cube_slabs_spec(cu, ray, i, near, far, nm) is None,
            Some(out) => ({
                let narrow = cube_slabs_spec(cu, ray, i, near, far, nm);
                if out.0 <= far {
                    narrow is Some && narrow.unwrap().0 == out.0 && narrow.unwrap().2 == out.2
                } else {
                    narrow is None
                }
            }),
        },
    decreases 3 - i,
{
    lemma_cube_slabs_bounds(cu, ray, i, near, far2, nm);
    if i < 3 {
        let o = ray.origin.comp_spec(i as usize);
        let d = ray.direction.comp_spec(i as usize);
        let mn = cu.min.comp_spec(i as usize);
        let mx = cu.max.comp_spec(i as usize);
        if d == 0 {
            if !(o < mn || o > mx) {
                lemma_cube_slabs_window(cu, ray, i + 1, near, far, far2, nm);
            }
        } else {
            let ta = fx_div_spec(fx_sub_spec(mn, o), d);
            let tb = fx_div_spec(fx_sub_spec(mx, o), d);
            let lo = if ta > tb {
                tb
            } else {
                ta
            };
            let hi = if ta > tb {
                ta
            } else {
                tb
            };
            let sign = if ta > tb {
                FX_ONE
            } else {
                (-FX_ONE) as i64
            };
            let near2 = if lo > near {
                lo
            } else {
                near
            };
            let normal2 = if lo > near {
                axis_vec_spec(i as usize, sign)
            } else {
                nm
            };
            let far2n = if hi < far {
                hi
            } else {
                far
            };
            let far2w = if hi < far2 {
                hi
            } else {
                far2
            };
            if !(near2 > far2w) {
                lemma_cube_slabs_bounds(cu, ray, i + 1, near2, far2w, normal2);
                if near2 > far2n {
                    // The narrow window dies here, so the wide survivor, if
                    // any, enters past `far`: its entry is at least `near2`,
                    // which exceeds `far` because it fits under `hi`.
                } else {
                    lemma_cube_slabs_window(cu, ray, i + 1, near2, far2n, far2w, normal2);
                }
            }
        }
    }
}

/// Window narrowing for the whole cube intersection.
pub proof fn lemma_cube_window(cu: Cube, ray: Ray, t_min: i64, c: i64, c2: i64)
    requires
        t_min <= c <= c2,
    ensures
        match cu.intersect_spec(ray, t_min, c2) {
            None => cu.intersect_spec(ray, t_min, c) is None,
            Some(h) => (if h.t <= c {
                cu.intersect_spec(ray, t_min, c) == Some::<HitRecord>(h)
            } else {
                cu.intersect_spec(ray, t_min, c) is None
            }),
        },
{
    lemma_cube_slabs_window(cu, ray, 0, t_min, c, c2, Vec3 { x: 0, y: 0, z: 0 });
}

#[derive(Clone, Copy, PartialEq, Eq, Structural, Debug)]
pub enum LightType {
    Point,
    Directional,
}

/// A light source. A point light uses `position` only; a directional light
/// uses `direction` only.
#[derive(Clone, Copy, PartialEq, Eq, Structural, Debug)]
pub struct Light {
    pub light_type: LightType,
    pub position: Vec3,
    pub direction: Vec3,
    pub color: Vec3,
    pub intensity: i64,
}

} // verus!
