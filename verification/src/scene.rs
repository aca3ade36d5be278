//! The scene aggregate: flat collections of primitives and lights, and the
//! closest-hit query both integrators consult.
//!
//! The query scans spheres, then cubes, then planes; after every accepted hit
//! it shrinks the acceptance window to that hit's distance, so only the
//! globally nearest hit survives. `lemma_scene_intersect_closest` states that
//! selection exactly: the result is a hit some primitive reports over the
//! full window, and no primitive reports a nearer one.

use vstd::prelude::*;
use crate::fixed::{
    fx_cos, fx_cos_spec, fx_div, fx_div_spec, fx_mul, fx_mul_spec, fx_sin, fx_sin_spec, fx_sub,
    fx_sub_spec, FX_HALF, FX_ONE, FX_TAU,
};
use crate::primitives::{
    Cube, HitRecord, Light, LightType, Material, MaterialType, Plane, Sphere,
};
use crate::math::Ray;
use crate::vec3::Vec3;

verus! {

pub struct Scene {
    pub spheres: Vec<Sphere>,
    pub cubes: Vec<Cube>,
    pub planes: Vec<Plane>,
    pub lights: Vec<Light>,
}

/// The running state of the closest-hit scan: the best hit so far and the
/// current top of the acceptance window.
pub open spec fn scan_spheres_spec(
    s: Seq<Sphere>,
    ray: Ray,
    t_min: i64,
    st: (Option<HitRecord>, i64),
    i: int,
) -> (Option<HitRecord>, i64)
    decreases i,
{
    if i <= 0 {
        st
    } else {
        let prev = scan_spheres_spec(s, ray, t_min, st, i - 1);
        match s[i - 1].intersect_spec(ray, t_min, prev.1) {
            Some(h) => (Some(h), h.t),
            None => prev,
        }
    }
}

pub open spec fn scan_cubes_spec(
    s: Seq<Cube>,
    ray: Ray,
    t_min: i64,
    st: (Option<HitRecord>, i64),
    i: int,
) -> (Option<HitRecord>, i64)
    decreases i,
{
    if i <= 0 {
        st
    } else {
        let prev = scan_cubes_spec(s, ray, t_min, st, i - 1);
        match s[i - 1].intersect_spec(ray, t_min, prev.1) {
            Some(h) => (Some(h), h.t),
            None => prev,
        }
    }
}

pub open spec fn scan_planes_spec(
    s: Seq<Plane>,
    ray: Ray,
    t_min: i64,
    st: (Option<HitRecord>, i64),
    i: int,
) -> (Option<HitRecord>, i64)
    decreases i,
{
    if i <= 0 {
        st
    } else {
        let prev = scan_planes_spec(s, ray, t_min, st, i - 1);
        match s[i - 1].intersect_spec(ray, t_min, prev.1) {
            Some(h) => (Some(h), h.t),
            None => prev,
        }
    }
}

/// The nearest hit across all primitive kinds, as the scan above computes it.
pub open spec fn scene_intersect_spec(
    spheres: Seq<Sphere>,
    cubes: Seq<Cube>,
    planes: Seq<Plane>,
    ray: Ray,
    t_min: i64,
    t_max: i64,
) -> Option<HitRecord> {
    let st0 = (None::<HitRecord>, t_max);
    let st1 = scan_spheres_spec(spheres, ray, t_min, st0, spheres.len() as int);
    let st2 = scan_cubes_spec(cubes, ray, t_min, st1, cubes.len() as int);
    let st3 = scan_planes_spec(planes, ray, t_min, st2, planes.len() as int);
    st3.0
}

/// The angular position of ring slot `i` out of five, a fifth of a turn
/// apart.
pub open spec fn ring_angle_spec(i: int) -> i64 {
    fx_mul_spec(fx_div_spec((i * 65536) as i64, 327680), FX_TAU)
}

pub open spec fn ring_x_spec(i: int) -> i64 {
    fx_mul_spec(fx_cos_spec(ring_angle_spec(i)), 196608)
}

pub open spec fn ring_z_spec(i: int) -> i64 {
    fx_mul_spec(fx_sin_spec(ring_angle_spec(i)), 196608)
}

/// The light turquoise diffuse material of every ring cube.
pub open spec fn ring_cube_material_spec() -> Material {
    Material {
        color: Vec3 { x: 6554, y: 52429, z: 52429 },
        specular: 0,
        shininess: 0,
        reflectivity: 0,
        roughness: FX_ONE,
        ior: 98304,
        mat_type: MaterialType::Lambertian,
    }
}

/// The showcase materials of the ring spheres: red Lambertian, gray metal,
/// glass, rough blue metal, and yellow Lambertian for the rest.
pub open spec fn ring_sphere_material_spec(i: int) -> Material {
    if i == 0 {
        Material {
            color: Vec3 { x: 52429, y: 6554, z: 6554 },
            specular: FX_HALF,
            shininess: 2097152,
            reflectivity: 0,
            roughness: 6554,
            ior: 98304,
            mat_type: MaterialType::Lambertian,
        }
    } else if i == 1 {
        Material {
            color: Vec3 { x: 39322, y: 39322, z: 39322 },
            specular: 45875,
            shininess: 4194304,
            reflectivity: 52429,
            roughness: 6554,
            ior: 98304,
            mat_type: MaterialType::Metal,
        }
    } else if i == 2 {
        Material {
            color: Vec3 { x: FX_ONE, y: FX_ONE, z: FX_ONE },
            specular: FX_ONE,
            shininess: 6553600,
            reflectivity: 6554,
            roughness: 0,
            ior: 99615,
            mat_type: MaterialType::Dielectric,
        }
    } else if i == 3 {
        Material {
            color: Vec3 { x: 6554, y: 6554, z: 52429 },
            specular: FX_HALF,
            shininess: 2097152,
            reflectivity: 26214,
            roughness: 26214,
            ior: 98304,
            mat_type: MaterialType::Metal,
        }
    } else {
        Material {
            color: Vec3 { x: 52429, y: 52429, z: 6554 },
            specular: FX_HALF,
            shininess: 2097152,
            reflectivity: 0,
            roughness: 6554,
            ior: 98304,
            mat_type: MaterialType::Lambertian,
        }
    }
}

pub open spec fn ring_cube_spec(i: int) -> Cube {
    Cube {
        min: Vec3 {
            x: fx_sub_spec(ring_x_spec(i), FX_HALF),
            y: (-FX_HALF) as i64,
            z: fx_sub_spec(ring_z_spec(i), FX_HALF),
        },
        max: Vec3 {
            x: crate::fixed::fx_add_spec(ring_x_spec(i), FX_HALF),
            y: FX_HALF,
            z: crate::fixed::fx_add_spec(ring_z_spec(i), FX_HALF),
        },
        material: ring_cube_material_spec(),
    }
}

pub open spec fn ring_sphere_spec(i: int) -> Sphere {
    Sphere {
        center: Vec3 { x: ring_x_spec(i), y: FX_ONE, z: ring_z_spec(i) },
        radius: FX_HALF,
        material: ring_sphere_material_spec(i),
    }
}

/// The gray floor plane of the demo scene.
pub open spec fn floor_plane_spec() -> Plane {
    Plane {
        point: Vec3 { x: 0, y: (-FX_HALF) as i64, z: 0 },
        normal: Vec3 { x: 0, y: FX_ONE, z: 0 },
        material: Material {
            color: Vec3 { x: FX_HALF, y: FX_HALF, z: FX_HALF },
            specular: 0,
            shininess: 0,
            reflectivity: 0,
            roughness: FX_ONE,
            ior: 98304,
            mat_type: MaterialType::Lambertian,
        },
    }
}

/// The three-point lighting of the demo scene: a warm key light, a cool
/// fill light at about half its strength, and a white rim light behind.
pub open spec fn demo_lights_spec() -> Seq<Light> {
    seq![
        Light {
            light_type: LightType::Point,
            position: Vec3 { x: 327680, y: 393216, z: 262144 },
            direction: Vec3 { x: 0, y: 0, z: 0 },
            color: Vec3 { x: FX_ONE, y: 64225, z: 62259 },
            intensity: 52429,
        },
        Light {
            light_type: LightType::Point,
            position: Vec3 { x: (-262144) as i64, y: 196608, z: 196608 },
            direction: Vec3 { x: 0, y: 0, z: 0 },
            color: Vec3 { x: 62259, y: 64225, z: FX_ONE },
            intensity: 26214,
        },
        Light {
            light_type: LightType::Point,
            position: Vec3 { x: 0, y: 458752, z: (-327680) as i64 },
            direction: Vec3 { x: 0, y: 0, z: 0 },
            color: Vec3 { x: FX_ONE, y: FX_ONE, z: FX_ONE },
            intensity: FX_HALF,
        },
    ]
}

#[verifier::rlimit(100)]
fn ring_position(i: usize) -> (r: (i64, i64))
    requires
        i < 5,
    ensures
        r.0 == ring_x_spec(i as int),
        r.1 == ring_z_spec(i as int),
{
    let angle: i64 = fx_mul(fx_div((i as i64) * 65536, 327680), FX_TAU);
    (fx_mul(fx_cos(angle), 196608), fx_mul(fx_sin(angle), 196608))
}

fn ring_sphere_material(i: usize) -> (r: Material)
    ensures
        r == ring_sphere_material_spec(i as int),
{
    if i == 0 {
        Material {
            color: Vec3 { x: 52429, y: 6554, z: 6554 },
            specular: FX_HALF,
            shininess: 2097152,
            reflectivity: 0,
            roughness: 6554,
            ior: 98304,
            mat_type: MaterialType::Lambertian,
        }
    } else if i == 1 {
        Material {
            color: Vec3 { x: 39322, y: 39322, z: 39322 },
            specular: 45875,
            shininess: 4194304,
            reflectivity: 52429,
            roughness: 6554,
            ior: 98304,
            mat_type: MaterialType::Metal,
        }
    } else if i == 2 {
        Material {
            color: Vec3 { x: FX_ONE, y: FX_ONE, z: FX_ONE },
            specular: FX_ONE,
            shininess: 6553600,
            reflectivity: 6554,
            roughness: 0,
            ior: 99615,
            mat_type: MaterialType::Dielectric,
        }
    } else if i == 3 {
        Material {
            color: Vec3 { x: 6554, y: 6554, z: 52429 },
            specular: FX_HALF,
            shininess: 2097152,
            reflectivity: 26214,
            roughness: 26214,
            ior: 98304,
            mat_type: MaterialType::Metal,
        }
    } else {
        Material {
            color: Vec3 { x: 52429, y: 52429, z: 6554 },
            specular: FX_HALF,
            shininess: 2097152,
            reflectivity: 0,
            roughness: 6554,
            ior: 98304,
            mat_type: MaterialType::Lambertian,
        }
    }
}

impl Default for Scene {
    /// The demo scene: a gray floor, five turquoise cubes in a circle with a
    /// showcase sphere on each, and a three-point lighting setup.
    #[verifier::rlimit(100)]
    fn default() -> (r: Scene)
        ensures
            r.spheres@.len() == 5,
            forall|i: int| 0 <= i < 5 ==> r.spheres@[i] == ring_sphere_spec(i),
            r.cubes@.len() == 5,
            forall|i: int| 0 <= i < 5 ==> r.cubes@[i] == ring_cube_spec(i),
            r.planes@ == seq![floor_plane_spec()],
            r.lights@ == demo_lights_spec(),
    {
        let mut spheres: Vec<Sphere> = Vec::new();
        let mut cubes: Vec<Cube> = Vec::new();
        let mut planes: Vec<Plane> = Vec::new();

        planes.push(
            Plane {
                point: Vec3 { x: 0, y: -FX_HALF, z: 0 },
                normal: Vec3 { x: 0, y: FX_ONE, z: 0 },
                material: Material {
                    color: Vec3 { x: FX_HALF, y: FX_HALF, z: FX_HALF },
                    specular: 0,
                    shininess: 0,
                    reflectivity: 0,
                    roughness: FX_ONE,
                    ior: 98304,
                    mat_type: MaterialType::Lambertian,
                },
            },
        );
        proof {
            assert(planes@ =~= seq![floor_plane_spec()]);
        }

        let mut i: usize = 0;
        while i < 5
            invariant
                0 <= i <= 5,
                spheres@.len() == i,
                cubes@.len() == i,
                forall|k: int| 0 <= k < i ==> spheres@[k] == ring_sphere_spec(k),
                forall|k: int| 0 <= k < i ==> cubes@[k] == ring_cube_spec(k),
                planes@ == seq![floor_plane_spec()],
            decreases 5 - i,
        {
            let pos: (i64, i64) = ring_position(i);
            cubes.push(
                Cube {
                    min: Vec3 {
                        x: fx_sub(pos.0, FX_HALF),
                        y: -FX_HALF,
                        z: fx_sub(pos.1, FX_HALF),
                    },
                    max: Vec3 {
                        x: crate::fixed::fx_add(pos.0, FX_HALF),
                        y: FX_HALF,
                        z: crate::fixed::fx_add(pos.1, FX_HALF),
                    },
                    material: Material {
                        color: Vec3 { x: 6554, y: 52429, z: 52429 },
                        specular: 0,
                        shininess: 0,
                        reflectivity: 0,
                        roughness: FX_ONE,
                        ior: 98304,
                        mat_type: MaterialType::Lambertian,
                    },
                },
            );
            let material: Material = ring_sphere_material(i);
            spheres.push(
                Sphere {
                    center: Vec3 { x: pos.0, y: FX_ONE, z: pos.1 },
                    radius: FX_HALF,
                    material,
                },
            );
            i = i + 1;
        }

        let mut lights: Vec<Light> = Vec::new();
        lights.push(
            Light {
                light_type: LightType::Point,
                position: Vec3 { x: 327680, y: 393216, z: 262144 },
                direction: Vec3 { x: 0, y: 0, z: 0 },
                color: Vec3 { x: FX_ONE, y: 64225, z: 62259 },
                intensity: 52429,
            },
        );
        lights.push(
            Light {
                light_type: LightType::Point,
                position: Vec3 { x: -262144, y: 196608, z: 196608 },
                direction: Vec3 { x: 0, y: 0, z: 0 },
                color: Vec3 { x: 62259, y: 64225, z: FX_ONE },
                intensity: 26214,
            },
        );
        lights.push(
            Light {
                light_type: LightType::Point,
                position: Vec3 { x: 0, y: 458752, z: -327680 },
                direction: Vec3 { x: 0, y: 0, z: 0 },
                color: Vec3 { x: FX_ONE, y: FX_ONE, z: FX_ONE },
                intensity: FX_HALF,
            },
        );
        proof {
            assert(lights@ =~= demo_lights_spec());
        }

        Scene { spheres, cubes, planes, lights }
    }
}

/// The scan invariant: the window top is the distance of the best hit so
/// far, or the original bound while there is none.
pub open spec fn scan_state_inv(st: (Option<HitRecord>, i64), t_min: i64, t_max: i64) -> bool {
    &&& t_min <= st.1 <= t_max
    &&& match st.0 {
        Some(h) => h.t == st.1,
        None => st.1 == t_max,
    }
}

pub proof fn lemma_scan_spheres(
    s: Seq<Sphere>,
    ray: Ray,
    t_min: i64,
    t_max: i64,
    st0: (Option<HitRecord>, i64),
    i: int,
)
    requires
        t_min <= t_max,
        scan_state_inv(st0, t_min, t_max),
        0 <= i <= s.len(),
    ensures
        ({
            let st = scan_spheres_spec(s, ray, t_min, st0, i);
            &&& scan_state_inv(st, t_min, t_max)
            &&& st.1 <= st0.1
            &&& (st.0 == st0.0 || exists|k: int|
                0 <= k < i && #[trigger] s[k].intersect_spec(ray, t_min, t_max) == st.0)
            &&& (forall|k: int|
                0 <= k < i ==> match #[trigger] s[k].intersect_spec(ray, t_min, t_max) {
                    Some(h) => st.1 <= h.t,
                    None => true,
                })
            &&& (st.0 is None ==> st0.0 is None)
            &&& (st.0 is None ==> (forall|k: int|
                0 <= k < i ==> #[trigger] s[k].intersect_spec(ray, t_min, t_max) is None))
        }),
    decreases i,
{
    if i > 0 {
        lemma_scan_spheres(s, ray, t_min, t_max, st0, i - 1);
        let prev = scan_spheres_spec(s, ray, t_min, st0, i - 1);
        crate::primitives::lemma_sphere_window(s[i - 1], ray, t_min, prev.1, t_max);
    }
}

pub proof fn lemma_scan_cubes(
    s: Seq<Cube>,
    ray: Ray,
    t_min: i64,
    t_max: i64,
    st0: (Option<HitRecord>, i64),
    i: int,
)
    requires
        t_min <= t_max,
        scan_state_inv(st0, t_min, t_max),
        0 <= i <= s.len(),
    ensures
        ({
            let st = scan_cubes_spec(s, ray, t_min, st0, i);
            &&& scan_state_inv(st, t_min, t_max)
            &&& st.1 <= st0.1
            &&& (st.0 == st0.0 || exists|k: int|
                0 <= k < i && #[trigger] s[k].intersect_spec(ray, t_min, t_max) == st.0)
            &&& (forall|k: int|
                0 <= k < i ==> match #[trigger] s[k].intersect_spec(ray, t_min, t_max) {
                    Some(h) => st.1 <= h.t,
                    None => true,
                })
            &&& (st.0 is None ==> st0.0 is None)
            &&& (st.0 is None ==> (forall|k: int|
                0 <= k < i ==> #[trigger] s[k].intersect_spec(ray, t_min, t_max) is None))
        }),
    decreases i,
{
    if i > 0 {
        lemma_scan_cubes(s, ray, t_min, t_max, st0, i - 1);
        let prev = scan_cubes_spec(s, ray, t_min, st0, i - 1);
        crate::primitives::lemma_cube_window(s[i - 1], ray, t_min, prev.1, t_max);
        crate::primitives::lemma_cube_slabs_bounds(
            s[i - 1],
            ray,
            0,
            t_min,
            prev.1,
            Vec3 { x: 0, y: 0, z: 0 },
        );
    }
}

pub proof fn lemma_scan_planes(
    s: Seq<Plane>,
    ray: Ray,
    t_min: i64,
    t_max: i64,
    st0: (Option<HitRecord>, i64),
    i: int,
)
    requires
        t_min <= t_max,
        scan_state_inv(st0, t_min, t_max),
        0 <= i <= s.len(),
    ensures
        ({
            let st = scan_planes_spec(s, ray, t_min, st0, i);
            &&& scan_state_inv(st, t_min, t_max)
            &&& st.1 <= st0.1
            &&& (st.0 == st0.0 || exists|k: int|
                0 <= k < i && #[trigger] s[k].intersect_spec(ray, t_min, t_max) == st.0)
            &&& (forall|k: int|
                0 <= k < i ==> match #[trigger] s[k].intersect_spec(ray, t_min, t_max) {
                    Some(h) => st.1 <= h.t,
                    None => true,
                })
            &&& (st.0 is None ==> st0.0 is None)
            &&& (st.0 is None ==> (forall|k: int|
                0 <= k < i ==> #[trigger] s[k].intersect_spec(ray, t_min, t_max) is None))
        }),
    decreases i,
{
    if i > 0 {
        lemma_scan_planes(s, ray, t_min, t_max, st0, i - 1);
        let prev = scan_planes_spec(s, ray, t_min, st0, i - 1);
        crate::primitives::lemma_plane_window(s[i - 1], ray, t_min, prev.1, t_max);
    }
}

/// Closest-hit selection: whatever `scene_intersect_spec` returns is a hit
/// some primitive reports over the full window, its distance lies in the
/// window, and no primitive of any kind reports a strictly nearer hit; and
/// when it returns nothing, no primitive hits the window at all.
pub proof fn lemma_scene_intersect_closest(
    spheres: Seq<Sphere>,
    cubes: Seq<Cube>,
    planes: Seq<Plane>,
    ray: Ray,
    t_min: i64,
    t_max: i64,
)
    requires
        t_min <= t_max,
    ensures
        ({
            let r = scene_intersect_spec(spheres, cubes, planes, ray, t_min, t_max);
            match r {
                Some(h) => {
                    &&& t_min <= h.t <= t_max
                    &&& ((exists|k: int|
                        0 <= k < spheres.len() && #[trigger] spheres[k].intersect_spec(
                            ray,
                            t_min,
                            t_max,
                        ) == Some::<HitRecord>(h)) || (exists|k: int|
                        0 <= k < cubes.len() && #[trigger] cubes[k].intersect_spec(
                            ray,
                            t_min,
                            t_max,
                        ) == Some::<HitRecord>(h)) || (exists|k: int|
                        0 <= k < planes.len() && #[trigger] planes[k].intersect_spec(
                            ray,
                            t_min,
                            t_max,
                        ) == Some::<HitRecord>(h)))
                    &&& (forall|k: int|
                        0 <= k < spheres.len()
                            ==> match #[trigger] spheres[k].intersect_spec(ray, t_min, t_max) {
                            Some(h2) => h.t <= h2.t,
                            None => true,
                        })
                    &&& (forall|k: int|
                        0 <= k < cubes.len()
                            ==> match #[trigger] cubes[k].intersect_spec(ray, t_min, t_max) {
                            Some(h2) => h.t <= h2.t,
                            None => true,
                        })
                    &&& (forall|k: int|
                        0 <= k < planes.len()
                            ==> match #[trigger] planes[k].intersect_spec(ray, t_min, t_max) {
                            Some(h2) => h.t <= h2.t,
                            None => true,
                        })
                },
                None => {
                    &&& (forall|k: int|
                        0 <= k < spheres.len() ==> #[trigger] spheres[k].intersect_spec(
                            ray,
                            t_min,
                            t_max,
                        ) is None)
                    &&& (forall|k: int|
                        0 <= k < cubes.len() ==> #[trigger] cubes[k].intersect_spec(
                            ray,
                            t_min,
                            t_max,
                        ) is None)
                    &&& (forall|k: int|
                        0 <= k < planes.len() ==> #[trigger] planes[k].intersect_spec(
                            ray,
                            t_min,
                            t_max,
                        ) is None)
                },
            }
        }),
{
    let st0 = (None::<HitRecord>, t_max);
    lemma_scan_spheres(spheres, ray, t_min, t_max, st0, spheres.len() as int);
    let st1 = scan_spheres_spec(spheres, ray, t_min, st0, spheres.len() as int);
    lemma_scan_cubes(cubes, ray, t_min, t_max, st1, cubes.len() as int);
    let st2 = scan_cubes_spec(cubes, ray, t_min, st1, cubes.len() as int);
    lemma_scan_planes(planes, ray, t_min, t_max, st2, planes.len() as int);
}

impl Scene {
    /// Linear scan for the nearest hit along `ray` inside `[t_min, t_max]`.
    pub fn intersect(&self, ray: &Ray, t_min: i64, t_max: i64) -> (r: Option<HitRecord>)
        ensures
            r == scene_intersect_spec(
                self.spheres@,
                self.cubes@,
                self.planes@,
                *ray,
                t_min,
                t_max,
            ),
            t_min <= t_max && r is Some ==> t_min <= r.unwrap().t <= t_max,
    {
        let mut closest_hit: Option<HitRecord> = None;
        let mut closest_t: i64 = t_max;
        let ghost st0 = (None::<HitRecord>, t_max);

        let mut i: usize = 0;
        while i < self.spheres.len()
            invariant
                0 <= i <= self.spheres.len(),
                (closest_hit, closest_t) == scan_spheres_spec(
                    self.spheres@,
                    *ray,
                    t_min,
                    st0,
                    i as int,
                ),
                st0 == (None::<HitRecord>, t_max),
                t_min <= t_max ==> t_min <= closest_t <= t_max,
                t_min <= t_max && closest_hit is Some ==> t_min <= closest_hit.unwrap().t
                    <= t_max,
            decreases self.spheres.len() - i,
        {
            if let Some(hit) = self.spheres[i].intersect(ray, t_min, closest_t) {
                closest_t = hit.t;
                closest_hit = Some(hit);
            }
            i = i + 1;
        }
        let ghost st1 = scan_spheres_spec(self.spheres@, *ray, t_min, st0, self.spheres@.len() as int);

        let mut j: usize = 0;
        while j < self.cubes.len()
            invariant
                0 <= j <= self.cubes.len(),
                (closest_hit, closest_t) == scan_cubes_spec(
                    self.cubes@,
                    *ray,
                    t_min,
                    st1,
                    j as int,
                ),
                st1 == scan_spheres_spec(self.spheres@, *ray, t_min, st0, self.spheres@.len() as int),
                st0 == (None::<HitRecord>, t_max),
                t_min <= t_max ==> t_min <= closest_t <= t_max,
                t_min <= t_max && closest_hit is Some ==> t_min <= closest_hit.unwrap().t
                    <= t_max,
            decreases self.cubes.len() - j,
        {
            if let Some(hit) = self.cubes[j].intersect(ray, t_min, closest_t) {
                closest_t = hit.t;
                closest_hit = Some(hit);
            }
            j = j + 1;
        }
        let ghost st2 = scan_cubes_spec(self.cubes@, *ray, t_min, st1, self.cubes@.len() as int);

        let mut k: usize = 0;
        while k < self.planes.len()
            invariant
                0 <= k <= self.planes.len(),
                (closest_hit, closest_t) == scan_planes_spec(
                    self.planes@,
                    *ray,
                    t_min,
                    st2,
                    k as int,
                ),
                st2 == scan_cubes_spec(self.cubes@, *ray, t_min, st1, self.cubes@.len() as int),
                st1 == scan_spheres_spec(self.spheres@, *ray, t_min, st0, self.spheres@.len() as int),
                st0 == (None::<HitRecord>, t_max),
                t_min <= t_max ==> t_min <= closest_t <= t_max,
                t_min <= t_max && closest_hit is Some ==> t_min <= closest_hit.unwrap().t
                    <= t_max,
            decreases self.planes.len() - k,
        {
            if let Some(hit) = self.planes[k].intersect(ray, t_min, closest_t) {
                closest_t = hit.t;
                closest_hit = Some(hit);
            }
            k = k + 1;
        }

        closest_hit
    }
}

} // verus!
