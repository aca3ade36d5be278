//! Per-pixel rendering and light transport.
//!
//! Two integrators share the scene's closest-hit query: a Whitted-style
//! recursive raytracer and a path tracer with next-event estimation. A path
//! recorder walks the same branching decisions to classify ray segments for
//! debug display. Each routine threads the caller's random source and is
//! pinned to a specification mirror, so a render is a pure function of
//! (scene, camera, configuration, seed).

use vstd::prelude::*;
use crate::fixed::{
    fx_add_spec, fx_div, fx_div_spec, fx_max, fx_max_spec, fx_min, fx_min_spec, fx_mul,
    fx_mul_spec, fx_pow, fx_pow_spec, fx_sqrt, fx_sqrt_spec, fx_sub, fx_sub_spec, fx_to_exp,
    fx_to_exp_spec, FX_HALF, FX_ONE,
};
use crate::vec3::Vec3;
use crate::math::{
    next_state_spec, random_unit_vector, random_unit_vector_spec, RandomSource, Ray, reflect,
    reflect_spec, reflectance, reflectance_spec, refract, refract_spec, unit_from_state,
};
use crate::camera::Camera;
use crate::primitives::{HitRecord, Light, LightType, MaterialType};
use crate::scene::{scene_intersect_spec, Scene};

verus! {

/// Which light-transport algorithm a render uses.
#[derive(Clone, Copy, PartialEq, Eq, Structural, Debug)]
pub enum RenderMode {
    Raytracing,
    Pathtracing,
}

/// Render configuration: image size, recursion budget, sampling rate and the
/// chosen integrator. Mutated externally; read-only during a render call.
#[derive(Clone, Copy, PartialEq, Eq, Structural, Debug)]
pub struct Raytracer {
    pub width: u32,
    pub height: u32,
    pub max_bounces: u32,
    pub samples_per_pixel: u32,
    pub mode: RenderMode,
}

/// Classification of one traversed ray-path segment.
#[derive(Clone, Copy, PartialEq, Eq, Structural, Debug)]
pub enum RaySegmentType {
    Primary,
    Reflection,
    Refraction,
    Diffuse,
}

/// A recorded ray walk: the visited points, one classification per segment
/// (so one fewer than the points), and whether any real intersection
/// occurred.
#[derive(Clone, PartialEq, Debug)]
pub struct RayPath {
    pub points: Vec<Vec3>,
    pub segment_types: Vec<RaySegmentType>,
    pub hit: bool,
}

/// The lower end of every secondary acceptance window: a small offset that
/// keeps shadow and bounce rays from hitting their own origin.
pub const T_EPS: i64 = 66;

/// The ambient factor of the Whitted integrator, one tenth.
pub const AMBIENT: i64 = 6554;

impl Default for Raytracer {
    fn default() -> (r: Raytracer)
        ensures
            r == (Raytracer {
                width: 200,
                height: 150,
                max_bounces: 3,
                samples_per_pixel: 1,
                mode: RenderMode::Raytracing,
            }),
    {
        Raytracer {
            width: 200,
            height: 150,
            max_bounces: 3,
            samples_per_pixel: 1,
            mode: RenderMode::Raytracing,
        }
    }
}

/// The analytic sky: a linear blend from white toward (0.5, 0.7, 1.0)
/// weighted by half of (unit direction y + 1).
pub open spec fn sky_color_spec(ray: Ray) -> Vec3 {
    let unit = ray.direction.normalize_spec();
    let t = fx_mul_spec(FX_HALF, fx_add_spec(unit.y, FX_ONE));
    (Vec3 { x: FX_ONE, y: FX_ONE, z: FX_ONE }).scale_spec(fx_sub_spec(FX_ONE, t)).vadd_spec(
        (Vec3 { x: FX_HALF, y: 45875, z: FX_ONE }).scale_spec(t),
    )
}

pub fn sky_color(ray: Ray) -> (c: Vec3)
    ensures
        c == sky_color_spec(ray),
{
    let unit: Vec3 = ray.direction.normalize();
    let t: i64 = fx_mul(FX_HALF, crate::fixed::fx_add(unit.y, FX_ONE));
    Vec3::new(FX_ONE, FX_ONE, FX_ONE).scale(fx_sub(FX_ONE, t)).vadd(
        Vec3::new(FX_HALF, 45875, FX_ONE).scale(t),
    )
}

/// The direction toward a light from a point, and the longest occluder
/// distance that still shadows it: a fixed direction and an unbounded
/// distance for a directional light, the normalized offset and its length
/// for a point light.
pub open spec fn light_dir_dist_spec(light: Light, from_point: Vec3) -> (Vec3, i64) {
    match light.light_type {
        LightType::Directional => (light.direction.normalize_spec().vneg_spec(), i64::MAX),
        LightType::Point => {
            let dir = light.position.vsub_spec(from_point);
            (dir.normalize_spec(), dir.length_spec())
        },
    }
}

pub fn light_dir_dist(light: &Light, from_point: Vec3) -> (r: (Vec3, i64))
    ensures
        r == light_dir_dist_spec(*light, from_point),
{
    match light.light_type {
        LightType::Directional => (light.direction.normalize().vneg(), i64::MAX),
        LightType::Point => {
            let dir: Vec3 = light.position.vsub(from_point);
            (dir.normalize(), dir.length())
        },
    }
}

/// One light's Whitted contribution on top of `acc`: if an unoccluded shadow
/// ray reaches the light, a Lambertian diffuse term and a Phong specular
/// term, each scaled by the light's intensity; otherwise `acc` unchanged.
pub open spec fn whitted_light_term_spec(
    sph: Seq<crate::primitives::Sphere>,
    cub: Seq<crate::primitives::Cube>,
    pla: Seq<crate::primitives::Plane>,
    light: Light,
    hit: HitRecord,
    view_dir: Vec3,
    acc: Vec3,
) -> Vec3 {
    let ld = light_dir_dist_spec(light, hit.point);
    let shadow_ray = Ray { origin: hit.point, direction: ld.0 };
    if scene_intersect_spec(sph, cub, pla, shadow_ray, T_EPS, ld.1) is None {
        let diff = fx_max_spec(hit.normal.dot_spec(ld.0), 0);
        let acc1 = acc.vadd_spec(
            hit.material.color.cmul_spec(light.color).scale_spec(diff).scale_spec(light.intensity),
        );
        let reflect_dir = reflect_spec(ld.0.vneg_spec(), hit.normal);
        let amount = fx_pow_spec(
            fx_max_spec(view_dir.dot_spec(reflect_dir), 0),
            fx_to_exp_spec(hit.material.shininess) as nat,
        );
        acc1.vadd_spec(
            light.color.scale_spec(hit.material.specular).scale_spec(amount).scale_spec(
                light.intensity,
            ),
        )
    } else {
        acc
    }
}

/// The Whitted direct-lighting fold over the first `i` lights.
pub open spec fn whitted_lights_spec(
    sph: Seq<crate::primitives::Sphere>,
    cub: Seq<crate::primitives::Cube>,
    pla: Seq<crate::primitives::Plane>,
    lights: Seq<Light>,
    hit: HitRecord,
    view_dir: Vec3,
    acc0: Vec3,
    i: int,
) -> Vec3
    decreases i,
{
    if i <= 0 {
        acc0
    } else {
        whitted_light_term_spec(
            sph,
            cub,
            pla,
            lights[i - 1],
            hit,
            view_dir,
            whitted_lights_spec(sph, cub, pla, lights, hit, view_dir, acc0, i - 1),
        )
    }
}

/// The refraction-side normal and ratio at a dielectric interface, by which
/// side of the surface the ray entered.
pub open spec fn dielectric_normal_spec(ray: Ray, hit: HitRecord) -> Vec3 {
    let unit_direction = ray.direction.normalize_spec();
    if unit_direction.dot_spec(hit.normal) < 0 {
        hit.normal
    } else {
        hit.normal.vneg_spec()
    }
}

pub open spec fn dielectric_ratio_spec(ray: Ray, hit: HitRecord) -> i64 {
    let unit_direction = ray.direction.normalize_spec();
    if unit_direction.dot_spec(hit.normal) < 0 {
        fx_div_spec(FX_ONE, hit.material.ior)
    } else {
        hit.material.ior
    }
}

/// The stochastic reflect-or-refract choice at a dielectric interface: the
/// chosen direction and the generator state after it. Past the critical
/// angle the ray must reflect and no draw is consumed; otherwise one draw is
/// weighed against the Schlick reflectance.
pub open spec fn dielectric_branch_spec(ray: Ray, hit: HitRecord, s: u64) -> (Vec3, u64, bool) {
    let unit_direction = ray.direction.normalize_spec();
    let normal = dielectric_normal_spec(ray, hit);
    let ratio = dielectric_ratio_spec(ray, hit);
    let cos_theta = fx_min_spec(unit_direction.vneg_spec().dot_spec(normal), FX_ONE);
    let sin_theta = fx_sqrt_spec(fx_sub_spec(FX_ONE, fx_mul_spec(cos_theta, cos_theta)));
    let cannot_refract = fx_mul_spec(ratio, sin_theta) > FX_ONE;
    if cannot_refract {
        (reflect_spec(unit_direction, normal), s, true)
    } else {
        let s1 = next_state_spec(s);
        let rv = unit_from_state(s1);
        if reflectance_spec(cos_theta, ratio) > rv {
            (reflect_spec(unit_direction, normal), s1, true)
        } else {
            (refract_spec(unit_direction, normal, ratio), s1, false)
        }
    }
}

/// Executable twin of `dielectric_branch_spec`; the flag is true when the
/// branch reflected.
pub fn dielectric_branch(ray: Ray, hit: HitRecord, rng: &mut RandomSource) -> (r: (Vec3, bool))
    ensures
        r.0 == dielectric_branch_spec(ray, hit, old(rng).state).0,
        final(rng).state == dielectric_branch_spec(ray, hit, old(rng).state).1,
        r.1 == dielectric_branch_spec(ray, hit, old(rng).state).2,
{
    let unit_direction: Vec3 = ray.direction.normalize();
    let dotn: i64 = unit_direction.dot(hit.normal);
    let normal: Vec3 = if dotn < 0 {
        hit.normal
    } else {
        hit.normal.vneg()
    };
    let ratio: i64 = if dotn < 0 {
        fx_div(FX_ONE, hit.material.ior)
    } else {
        hit.material.ior
    };
    let cos_theta: i64 = fx_min(unit_direction.vneg().dot(normal), FX_ONE);
    let sin_theta: i64 = fx_sqrt(fx_sub(FX_ONE, fx_mul(cos_theta, cos_theta)));
    let cannot_refract: bool = fx_mul(ratio, sin_theta) > FX_ONE;
    if cannot_refract {
        (reflect(unit_direction, normal), true)
    } else {
        let rv: i64 = rng.next_unit();
        if reflectance(cos_theta, ratio) > rv {
            (reflect(unit_direction, normal), true)
        } else {
            (refract(unit_direction, normal, ratio), false)
        }
    }
}

/// The Whitted integrator: black at depth zero; on a hit, an ambient tenth
/// of the material color plus shadowed diffuse and specular terms per light,
/// plus a scaled mirror recursion when the material is reflective; a
/// dielectric hit instead returns its stochastic reflect-or-refract
/// recursion alone. A miss returns the sky. The second component is the
/// generator state after the call.
pub open spec fn trace_ray_spec(
    sph: Seq<crate::primitives::Sphere>,
    cub: Seq<crate::primitives::Cube>,
    pla: Seq<crate::primitives::Plane>,
    lights: Seq<Light>,
    ray: Ray,
    depth: u32,
    s: u64,
) -> (Vec3, u64)
    decreases depth,
{
    if depth == 0 {
        (Vec3 { x: 0, y: 0, z: 0 }, s)
    } else {
        match scene_intersect_spec(sph, cub, pla, ray, T_EPS, i64::MAX) {
            Some(hit) => {
                let view_dir = ray.direction.vneg_spec();
                let ambient = hit.material.color.scale_spec(AMBIENT);
                let lit = whitted_lights_spec(
                    sph,
                    cub,
                    pla,
                    lights,
                    hit,
                    view_dir,
                    ambient,
                    lights.len() as int,
                );
                let refl = if hit.material.reflectivity > 0 {
                    let rr = trace_ray_spec(
                        sph,
                        cub,
                        pla,
                        lights,
                        Ray { origin: hit.point, direction: reflect_spec(ray.direction, hit.normal) },
                        (depth - 1) as u32,
                        s,
                    );
                    (lit.vadd_spec(rr.0.scale_spec(hit.material.reflectivity)), rr.1)
                } else {
                    (lit, s)
                };
                if hit.material.mat_type == MaterialType::Dielectric {
                    let branch = dielectric_branch_spec(ray, hit, refl.1);
                    trace_ray_spec(
                        sph,
                        cub,
                        pla,
                        lights,
                        Ray { origin: hit.point, direction: branch.0 },
                        (depth - 1) as u32,
                        branch.1,
                    )
                } else {
                    refl
                }
            },
            None => (sky_color_spec(ray), s),
        }
    }
}

/// A material the path tracer treats as perfectly specular, skipping
/// direct-light sampling: any dielectric, or metal smoother than 0.05.
pub open spec fn is_specular_spec(m: crate::primitives::Material) -> bool {
    match m.mat_type {
        MaterialType::Dielectric => true,
        MaterialType::Metal => m.roughness < 3277,
        MaterialType::Lambertian => false,
    }
}

pub fn is_specular(m: &crate::primitives::Material) -> (r: bool)
    ensures
        r == is_specular_spec(*m),
{
    match m.mat_type {
        MaterialType::Dielectric => true,
        MaterialType::Metal => m.roughness < 3277,
        MaterialType::Lambertian => false,
    }
}

/// One light's next-event-estimation contribution on top of `acc`: after an
/// unoccluded shadow ray, a cosine-weighted diffuse term for Lambertian, or
/// a half-vector highlight for rough metal.
pub open spec fn pt_light_term_spec(
    sph: Seq<crate::primitives::Sphere>,
    cub: Seq<crate::primitives::Cube>,
    pla: Seq<crate::primitives::Plane>,
    light: Light,
    hit: HitRecord,
    ray: Ray,
    acc: Vec3,
) -> Vec3 {
    let ld = light_dir_dist_spec(light, hit.point);
    let shadow_ray = Ray { origin: hit.point, direction: ld.0 };
    if scene_intersect_spec(sph, cub, pla, shadow_ray, T_EPS, ld.1) is None {
        let cos_theta = fx_max_spec(hit.normal.dot_spec(ld.0), 0);
        if hit.material.mat_type == MaterialType::Lambertian {
            acc.vadd_spec(
                hit.material.color.cmul_spec(light.color).scale_spec(light.intensity).scale_spec(
                    cos_theta,
                ),
            )
        } else if hit.material.mat_type == MaterialType::Metal {
            let view_dir = ray.direction.normalize_spec().vneg_spec();
            let halfway = ld.0.vadd_spec(view_dir).normalize_spec();
            let amount = fx_pow_spec(
                fx_max_spec(hit.normal.dot_spec(halfway), 0),
                fx_to_exp_spec(fx_div_spec(131072, fx_max_spec(hit.material.roughness, 655))) as nat,
            );
            acc.vadd_spec(
                light.color.cmul_spec(hit.material.color).scale_spec(light.intensity).scale_spec(
                    amount,
                ),
            )
        } else {
            acc
        }
    } else {
        acc
    }
}

fn pt_light_term(scene: &Scene, light: &Light, hit: &HitRecord, ray: Ray, acc: Vec3) -> (r: Vec3)
    ensures
        r == pt_light_term_spec(
            scene.spheres@,
            scene.cubes@,
            scene.planes@,
            *light,
            *hit,
            ray,
            acc,
        ),
{
    let ld: (Vec3, i64) = light_dir_dist(light, hit.point);
    let shadow_ray: Ray = Ray::new(hit.point, ld.0);
    if scene.intersect(&shadow_ray, T_EPS, ld.1).is_none() {
        let cos_theta: i64 = fx_max(hit.normal.dot(ld.0), 0);
        if hit.material.mat_type == MaterialType::Lambertian {
            acc.vadd(
                hit.material.color.cmul(light.color).scale(light.intensity).scale(cos_theta),
            )
        } else if hit.material.mat_type == MaterialType::Metal {
            let view_dir: Vec3 = ray.direction.normalize().vneg();
            let halfway: Vec3 = ld.0.vadd(view_dir).normalize();
            let amount: i64 = fx_pow(
                fx_max(hit.normal.dot(halfway), 0),
                fx_to_exp(fx_div(131072, fx_max(hit.material.roughness, 655))),
            );
            acc.vadd(
                light.color.cmul(hit.material.color).scale(light.intensity).scale(amount),
            )
        } else {
            acc
        }
    } else {
        acc
    }
}

/// The next-event-estimation fold over the first `i` lights.
pub open spec fn pt_lights_spec(
    sph: Seq<crate::primitives::Sphere>,
    cub: Seq<crate::primitives::Cube>,
    pla: Seq<crate::primitives::Plane>,
    lights: Seq<Light>,
    hit: HitRecord,
    ray: Ray,
    acc0: Vec3,
    i: int,
) -> Vec3
    decreases i,
{
    if i <= 0 {
        acc0
    } else {
        pt_light_term_spec(
            sph,
            cub,
            pla,
            lights[i - 1],
            hit,
            ray,
            pt_lights_spec(sph, cub, pla, lights, hit, ray, acc0, i - 1),
        )
    }
}

/// The path-tracing integrator: black at depth zero; on a hit, explicit
/// direct lighting for non-specular materials, plus one stochastic indirect
/// scatter filtered by the material's attenuation — a cosine-weighted
/// Lambertian bounce, a roughness-perturbed metal reflection absorbed when
/// it points into the surface, or the dielectric reflect-or-refract choice.
/// A miss returns the sky. The second component is the generator state
/// after the call.
pub open spec fn trace_pathtrace_spec(
    sph: Seq<crate::primitives::Sphere>,
    cub: Seq<crate::primitives::Cube>,
    pla: Seq<crate::primitives::Plane>,
    lights: Seq<Light>,
    ray: Ray,
    depth: u32,
    s: u64,
) -> (Vec3, u64)
    decreases depth,
{
    if depth == 0 {
        (Vec3 { x: 0, y: 0, z: 0 }, s)
    } else {
        match scene_intersect_spec(sph, cub, pla, ray, T_EPS, i64::MAX) {
            Some(hit) => {
                let direct = if !is_specular_spec(hit.material) {
                    pt_lights_spec(
                        sph,
                        cub,
                        pla,
                        lights,
                        hit,
                        ray,
                        Vec3 { x: 0, y: 0, z: 0 },
                        lights.len() as int,
                    )
                } else {
                    Vec3 { x: 0, y: 0, z: 0 }
                };
                match hit.material.mat_type {
                    MaterialType::Lambertian => {
                        let rv = random_unit_vector_spec(s);
                        let scatter = hit.normal.vadd_spec(rv.0).normalize_spec();
                        let rec = trace_pathtrace_spec(
                            sph,
                            cub,
                            pla,
                            lights,
                            Ray { origin: hit.point, direction: scatter },
                            (depth - 1) as u32,
                            rv.1,
                        );
                        (direct.vadd_spec(hit.material.color.cmul_spec(rec.0)), rec.1)
                    },
                    MaterialType::Metal => {
                        let reflected = reflect_spec(ray.direction.normalize_spec(), hit.normal);
                        let rv = random_unit_vector_spec(s);
                        let scatter = reflected.vadd_spec(rv.0.scale_spec(hit.material.roughness));
                        if scatter.dot_spec(hit.normal) <= 0 {
                            (direct, rv.1)
                        } else {
                            let rec = trace_pathtrace_spec(
                                sph,
                                cub,
                                pla,
                                lights,
                                Ray { origin: hit.point, direction: scatter },
                                (depth - 1) as u32,
                                rv.1,
                            );
                            (direct.vadd_spec(hit.material.color.cmul_spec(rec.0)), rec.1)
                        }
                    },
                    MaterialType::Dielectric => {
                        let branch = dielectric_branch_spec(ray, hit, s);
                        let rec = trace_pathtrace_spec(
                            sph,
                            cub,
                            pla,
                            lights,
                            Ray { origin: hit.point, direction: branch.0 },
                            (depth - 1) as u32,
                            branch.1,
                        );
                        (
                            direct.vadd_spec(
                                (Vec3 { x: FX_ONE, y: FX_ONE, z: FX_ONE }).cmul_spec(rec.0),
                            ),
                            rec.1,
                        )
                    },
                }
            },
            None => (sky_color_spec(ray), s),
        }
    }
}

/// Ambient-only shading: when the scene has no lights and the ray hits a
/// non-reflective, non-dielectric material, the Whitted integrator returns
/// exactly the ambient tenth of that material's color, and consumes no
/// randomness.
pub proof fn lemma_whitted_ambient_only(
    sph: Seq<crate::primitives::Sphere>,
    cub: Seq<crate::primitives::Cube>,
    pla: Seq<crate::primitives::Plane>,
    lights: Seq<Light>,
    ray: Ray,
    depth: u32,
    s: u64,
)
    requires
        depth >= 1,
        lights.len() == 0,
        scene_intersect_spec(sph, cub, pla, ray, T_EPS, i64::MAX) is Some,
        scene_intersect_spec(sph, cub, pla, ray, T_EPS, i64::MAX).unwrap().material.reflectivity
            <= 0,
        scene_intersect_spec(sph, cub, pla, ray, T_EPS, i64::MAX).unwrap().material.mat_type
            != MaterialType::Dielectric,
    ensures
        trace_ray_spec(sph, cub, pla, lights, ray, depth, s).0 == scene_intersect_spec(
            sph,
            cub,
            pla,
            ray,
            T_EPS,
            i64::MAX,
        ).unwrap().material.color.scale_spec(AMBIENT),
        trace_ray_spec(sph, cub, pla, lights, ray, depth, s).1 == s,
{
}

/// A plain pixel count as a fixed-point scalar.
pub open spec fn fx_of_u32_spec(x: u32) -> i64 {
    (x as int * 65536) as i64
}

pub fn fx_of_u32(x: u32) -> (r: i64)
    ensures
        r == fx_of_u32_spec(x),
{
    ((x as u64) * 65536) as i64
}

/// A radiance channel clamped to `[0, 1]` and scaled to the 8-bit range.
pub open spec fn quantize_channel_spec(c: i64) -> u8 {
    ((crate::fixed::fx_clamp_spec(c, 0, FX_ONE) * 255) / 65536) as u8
}

pub fn quantize_channel(c: i64) -> (r: u8)
    ensures
        r == quantize_channel_spec(c),
{
    let v: i64 = crate::fixed::fx_clamp(c, 0, FX_ONE);
    (((v as u64) * 255) / 65536) as u8
}

/// One jittered sample of pixel `(x, y)`: two draws perturb the normalized
/// image coordinates inside the pixel cell (with `v = 1` at the image top),
/// and the configured integrator traces the camera ray.
#[verifier::opaque]
pub open spec fn sample_color_spec(
    rt: Raytracer,
    sph: Seq<crate::primitives::Sphere>,
    cub: Seq<crate::primitives::Cube>,
    pla: Seq<crate::primitives::Plane>,
    lights: Seq<Light>,
    cam: crate::camera::Camera,
    x: u32,
    y: u32,
    s: u64,
) -> (Vec3, u64) {
    let s1 = next_state_spec(s);
    let ru = unit_from_state(s1);
    let s2 = next_state_spec(s1);
    let rv = unit_from_state(s2);
    let u = fx_div_spec(fx_add_spec(fx_of_u32_spec(x), ru), fx_of_u32_spec(rt.width));
    let v = fx_sub_spec(
        FX_ONE,
        fx_div_spec(fx_add_spec(fx_of_u32_spec(y), rv), fx_of_u32_spec(rt.height)),
    );
    let ray = cam.get_ray_spec(u, v);
    match rt.mode {
        RenderMode::Raytracing => trace_ray_spec(sph, cub, pla, lights, ray, rt.max_bounces, s2),
        RenderMode::Pathtracing => trace_pathtrace_spec(
            sph,
            cub,
            pla,
            lights,
            ray,
            rt.max_bounces,
            s2,
        ),
    }
}

/// The radiance sum of the first `n` samples of pixel `(x, y)`.
pub open spec fn pixel_samples_spec(
    rt: Raytracer,
    sph: Seq<crate::primitives::Sphere>,
    cub: Seq<crate::primitives::Cube>,
    pla: Seq<crate::primitives::Plane>,
    lights: Seq<Light>,
    cam: crate::camera::Camera,
    x: u32,
    y: u32,
    n: int,
    s: u64,
) -> (Vec3, u64)
    decreases n,
{
    if n <= 0 {
        (Vec3 { x: 0, y: 0, z: 0 }, s)
    } else {
        let prev = pixel_samples_spec(rt, sph, cub, pla, lights, cam, x, y, n - 1, s);
        let sample = sample_color_spec(rt, sph, cub, pla, lights, cam, x, y, prev.1);
        (prev.0.vadd_spec(sample.0), sample.1)
    }
}

/// The four bytes of one pixel: the sample sum averaged, clamped and
/// quantized per channel, with a fixed alpha of 255.
pub open spec fn pixel_rgba_spec(sum: Vec3, spp: u32) -> Seq<u8> {
    let avg = sum.sdiv_spec(fx_of_u32_spec(spp));
    seq![
        quantize_channel_spec(avg.x),
        quantize_channel_spec(avg.y),
        quantize_channel_spec(avg.z),
        255u8,
    ]
}

/// The buffer of the first `p` pixels in row-major order, top row first,
/// and the generator state after them.
pub open spec fn render_prefix_spec(
    rt: Raytracer,
    sph: Seq<crate::primitives::Sphere>,
    cub: Seq<crate::primitives::Cube>,
    pla: Seq<crate::primitives::Plane>,
    lights: Seq<Light>,
    cam: crate::camera::Camera,
    p: int,
    s: u64,
) -> (Seq<u8>, u64)
    decreases p,
{
    if p <= 0 {
        (Seq::empty(), s)
    } else {
        let prev = render_prefix_spec(rt, sph, cub, pla, lights, cam, p - 1, s);
        let x = ((p - 1) % (rt.width as int)) as u32;
        let y = ((p - 1) / (rt.width as int)) as u32;
        let px = pixel_samples_spec(
            rt,
            sph,
            cub,
            pla,
            lights,
            cam,
            x,
            y,
            rt.samples_per_pixel as int,
            prev.1,
        );
        (prev.0 + pixel_rgba_spec(px.0, rt.samples_per_pixel), px.1)
    }
}

#[verifier::rlimit(100)]
pub proof fn lemma_render_prefix_len(
    rt: Raytracer,
    sph: Seq<crate::primitives::Sphere>,
    cub: Seq<crate::primitives::Cube>,
    pla: Seq<crate::primitives::Plane>,
    lights: Seq<Light>,
    cam: crate::camera::Camera,
    p: int,
    s: u64,
)
    requires
        p >= 0,
    ensures
        render_prefix_spec(rt, sph, cub, pla, lights, cam, p, s).0.len() == 4 * p,
    decreases p,
{
    if p > 0 {
        lemma_render_prefix_len(rt, sph, cub, pla, lights, cam, p - 1, s);
    }
}

/// The recorder's state: visited points, per-segment classifications, and
/// whether a real intersection occurred.
pub open spec fn path_state_of(p: RayPath) -> (Seq<Vec3>, Seq<RaySegmentType>, bool) {
    (p.points@, p.segment_types@, p.hit)
}

/// The classification a recorder pushes for one traversed segment: the first
/// segment of a path is always Primary, later ones name the branch taken.
pub open spec fn seg_tag_spec(is_primary: bool, tag: RaySegmentType) -> RaySegmentType {
    if is_primary {
        RaySegmentType::Primary
    } else {
        tag
    }
}

/// One recorder step mirroring the Whitted integrator's branching: a hit
/// appends its point and the segment tag of the branch taken (refraction
/// choices draw from the same generator the integrator would), then follows
/// dielectric or mirror bounces; exhausted depth and misses extend the path
/// by a cosmetic 2 or 5 units.
pub open spec fn path_rt_step_spec(
    sph: Seq<crate::primitives::Sphere>,
    cub: Seq<crate::primitives::Cube>,
    pla: Seq<crate::primitives::Plane>,
    ray: Ray,
    depth: u32,
    st: (Seq<Vec3>, Seq<RaySegmentType>, bool),
    is_primary: bool,
    s: u64,
) -> ((Seq<Vec3>, Seq<RaySegmentType>, bool), u64)
    decreases depth,
{
    if depth == 0 {
        (
            (
                st.0.push(ray.at_spec(131072)),
                st.1.push(seg_tag_spec(is_primary, RaySegmentType::Diffuse)),
                st.2,
            ),
            s,
        )
    } else {
        match scene_intersect_spec(sph, cub, pla, ray, T_EPS, i64::MAX) {
            Some(hit) => {
                let pts = st.0.push(hit.point);
                if hit.material.mat_type == MaterialType::Dielectric {
                    let branch = dielectric_branch_spec(ray, hit, s);
                    let tag = if branch.2 {
                        RaySegmentType::Reflection
                    } else {
                        RaySegmentType::Refraction
                    };
                    path_rt_step_spec(
                        sph,
                        cub,
                        pla,
                        Ray { origin: hit.point, direction: branch.0 },
                        (depth - 1) as u32,
                        (pts, st.1.push(seg_tag_spec(is_primary, tag)), true),
                        false,
                        branch.1,
                    )
                } else if hit.material.reflectivity > 0 {
                    path_rt_step_spec(
                        sph,
                        cub,
                        pla,
                        Ray {
                            origin: hit.point,
                            direction: reflect_spec(ray.direction, hit.normal),
                        },
                        (depth - 1) as u32,
                        (
                            pts,
                            st.1.push(seg_tag_spec(is_primary, RaySegmentType::Reflection)),
                            true,
                        ),
                        false,
                        s,
                    )
                } else {
                    (
                        (
                            pts,
                            st.1.push(seg_tag_spec(is_primary, RaySegmentType::Diffuse)),
                            true,
                        ),
                        s,
                    )
                }
            },
            None => (
                (
                    st.0.push(ray.at_spec(327680)),
                    st.1.push(seg_tag_spec(is_primary, RaySegmentType::Diffuse)),
                    st.2,
                ),
                s,
            ),
        }
    }
}

/// One recorder step mirroring the path tracer's branching: every hit
/// scatters on (diffuse, perturbed metal reflection, or the dielectric
/// choice) with the same draws the integrator would make.
pub open spec fn path_pt_step_spec(
    sph: Seq<crate::primitives::Sphere>,
    cub: Seq<crate::primitives::Cube>,
    pla: Seq<crate::primitives::Plane>,
    ray: Ray,
    depth: u32,
    st: (Seq<Vec3>, Seq<RaySegmentType>, bool),
    is_primary: bool,
    s: u64,
) -> ((Seq<Vec3>, Seq<RaySegmentType>, bool), u64)
    decreases depth,
{
    if depth == 0 {
        (
            (
                st.0.push(ray.at_spec(131072)),
                st.1.push(seg_tag_spec(is_primary, RaySegmentType::Diffuse)),
                st.2,
            ),
            s,
        )
    } else {
        match scene_intersect_spec(sph, cub, pla, ray, T_EPS, i64::MAX) {
            Some(hit) => {
                let pts = st.0.push(hit.point);
                match hit.material.mat_type {
                    MaterialType::Lambertian => {
                        let rv = random_unit_vector_spec(s);
                        let scatter = hit.normal.vadd_spec(rv.0);
                        path_pt_step_spec(
                            sph,
                            cub,
                            pla,
                            Ray { origin: hit.point, direction: scatter },
                            (depth - 1) as u32,
                            (
                                pts,
                                st.1.push(seg_tag_spec(is_primary, RaySegmentType::Diffuse)),
                                true,
                            ),
                            false,
                            rv.1,
                        )
                    },
                    MaterialType::Metal => {
                        let reflected = reflect_spec(ray.direction.normalize_spec(), hit.normal);
                        let rv = random_unit_vector_spec(s);
                        let scatter = reflected.vadd_spec(rv.0.scale_spec(hit.material.roughness));
                        path_pt_step_spec(
                            sph,
                            cub,
                            pla,
                            Ray { origin: hit.point, direction: scatter },
                            (depth - 1) as u32,
                            (
                                pts,
                                st.1.push(seg_tag_spec(is_primary, RaySegmentType::Reflection)),
                                true,
                            ),
                            false,
                            rv.1,
                        )
                    },
                    MaterialType::Dielectric => {
                        let branch = dielectric_branch_spec(ray, hit, s);
                        let tag = if branch.2 {
                            RaySegmentType::Reflection
                        } else {
                            RaySegmentType::Refraction
                        };
                        path_pt_step_spec(
                            sph,
                            cub,
                            pla,
                            Ray { origin: hit.point, direction: branch.0 },
                            (depth - 1) as u32,
                            (pts, st.1.push(seg_tag_spec(is_primary, tag)), true),
                            false,
                            branch.1,
                        )
                    },
                }
            },
            None => (
                (
                    st.0.push(ray.at_spec(327680)),
                    st.1.push(seg_tag_spec(is_primary, RaySegmentType::Diffuse)),
                    st.2,
                ),
                s,
            ),
        }
    }
}

/// Every produced path keeps the recorder's shape: the classifications stay
/// one shorter than the points, at least one segment is appended, earlier
/// classifications are untouched, and a primary walk tags its first appended
/// segment Primary.
pub proof fn lemma_path_rt_shape(
    sph: Seq<crate::primitives::Sphere>,
    cub: Seq<crate::primitives::Cube>,
    pla: Seq<crate::primitives::Plane>,
    ray: Ray,
    depth: u32,
    st: (Seq<Vec3>, Seq<RaySegmentType>, bool),
    is_primary: bool,
    s: u64,
)
    ensures
        ({
            let out = path_rt_step_spec(sph, cub, pla, ray, depth, st, is_primary, s).0;
            &&& out.0.len() - st.0.len() == out.1.len() - st.1.len()
            &&& out.1.len() >= st.1.len() + 1
            &&& (forall|i: int| 0 <= i < st.1.len() ==> out.1[i] == st.1[i])
            &&& (is_primary ==> out.1[st.1.len() as int] == RaySegmentType::Primary)
        }),
    decreases depth,
{
    if depth != 0 {
        match scene_intersect_spec(sph, cub, pla, ray, T_EPS, i64::MAX) {
            Some(hit) => {
                let pts = st.0.push(hit.point);
                if hit.material.mat_type == MaterialType::Dielectric {
                    let branch = dielectric_branch_spec(ray, hit, s);
                    let tag = if branch.2 {
                        RaySegmentType::Reflection
                    } else {
                        RaySegmentType::Refraction
                    };
                    lemma_path_rt_shape(
                        sph,
                        cub,
                        pla,
                        Ray { origin: hit.point, direction: branch.0 },
                        (depth - 1) as u32,
                        (pts, st.1.push(seg_tag_spec(is_primary, tag)), true),
                        false,
                        branch.1,
                    );
                } else if hit.material.reflectivity > 0 {
                    lemma_path_rt_shape(
                        sph,
                        cub,
                        pla,
                        Ray {
                            origin: hit.point,
                            direction: reflect_spec(ray.direction, hit.normal),
                        },
                        (depth - 1) as u32,
                        (
                            pts,
                            st.1.push(seg_tag_spec(is_primary, RaySegmentType::Reflection)),
                            true,
                        ),
                        false,
                        s,
                    );
                }
            },
            None => {},
        }
    }
}

pub proof fn lemma_path_pt_shape(
    sph: Seq<crate::primitives::Sphere>,
    cub: Seq<crate::primitives::Cube>,
    pla: Seq<crate::primitives::Plane>,
    ray: Ray,
    depth: u32,
    st: (Seq<Vec3>, Seq<RaySegmentType>, bool),
    is_primary: bool,
    s: u64,
)
    ensures
        ({
            let out = path_pt_step_spec(sph, cub, pla, ray, depth, st, is_primary, s).0;
            &&& out.0.len() - st.0.len() == out.1.len() - st.1.len()
            &&& out.1.len() >= st.1.len() + 1
            &&& (forall|i: int| 0 <= i < st.1.len() ==> out.1[i] == st.1[i])
            &&& (is_primary ==> out.1[st.1.len() as int] == RaySegmentType::Primary)
        }),
    decreases depth,
{
    if depth != 0 {
        match scene_intersect_spec(sph, cub, pla, ray, T_EPS, i64::MAX) {
            Some(hit) => {
                let pts = st.0.push(hit.point);
                match hit.material.mat_type {
                    MaterialType::Lambertian => {
                        let rv = random_unit_vector_spec(s);
                        let scatter = hit.normal.vadd_spec(rv.0);
                        lemma_path_pt_shape(
                            sph,
                            cub,
                            pla,
                            Ray { origin: hit.point, direction: scatter },
                            (depth - 1) as u32,
                            (
                                pts,
                                st.1.push(seg_tag_spec(is_primary, RaySegmentType::Diffuse)),
                                true,
                            ),
                            false,
                            rv.1,
                        );
                    },
                    MaterialType::Metal => {
                        let reflected = reflect_spec(ray.direction.normalize_spec(), hit.normal);
                        let rv = random_unit_vector_spec(s);
                        let scatter = reflected.vadd_spec(rv.0.scale_spec(hit.material.roughness));
                        lemma_path_pt_shape(
                            sph,
                            cub,
                            pla,
                            Ray { origin: hit.point, direction: scatter },
                            (depth - 1) as u32,
                            (
                                pts,
                                st.1.push(seg_tag_spec(is_primary, RaySegmentType::Reflection)),
                                true,
                            ),
                            false,
                            rv.1,
                        );
                    },
                    MaterialType::Dielectric => {
                        let branch = dielectric_branch_spec(ray, hit, s);
                        let tag = if branch.2 {
                            RaySegmentType::Reflection
                        } else {
                            RaySegmentType::Refraction
                        };
                        lemma_path_pt_shape(
                            sph,
                            cub,
                            pla,
                            Ray { origin: hit.point, direction: branch.0 },
                            (depth - 1) as u32,
                            (pts, st.1.push(seg_tag_spec(is_primary, tag)), true),
                            false,
                            branch.1,
                        );
                    },
                }
            },
            None => {},
        }
    }
}

/// One debug path: a primary ray through random image coordinates, walked by
/// the recorder matching the configured integrator.
#[verifier::opaque]
pub open spec fn one_path_spec(
    rt: Raytracer,
    sph: Seq<crate::primitives::Sphere>,
    cub: Seq<crate::primitives::Cube>,
    pla: Seq<crate::primitives::Plane>,
    cam: Camera,
    s: u64,
) -> ((Seq<Vec3>, Seq<RaySegmentType>, bool), u64) {
    let s1 = next_state_spec(s);
    let u = unit_from_state(s1);
    let s2 = next_state_spec(s1);
    let v = unit_from_state(s2);
    let ray = cam.get_ray_spec(u, v);
    let st0 = (seq![ray.origin], Seq::<RaySegmentType>::empty(), false);
    match rt.mode {
        RenderMode::Raytracing => path_rt_step_spec(
            sph,
            cub,
            pla,
            ray,
            rt.max_bounces,
            st0,
            true,
            s2,
        ),
        RenderMode::Pathtracing => path_pt_step_spec(
            sph,
            cub,
            pla,
            ray,
            rt.max_bounces,
            st0,
            true,
            s2,
        ),
    }
}

/// The first `n` debug paths and the generator state after them.
pub open spec fn paths_prefix_spec(
    rt: Raytracer,
    sph: Seq<crate::primitives::Sphere>,
    cub: Seq<crate::primitives::Cube>,
    pla: Seq<crate::primitives::Plane>,
    cam: Camera,
    n: int,
    s: u64,
) -> (Seq<(Seq<Vec3>, Seq<RaySegmentType>, bool)>, u64)
    decreases n,
{
    if n <= 0 {
        (Seq::empty(), s)
    } else {
        let prev = paths_prefix_spec(rt, sph, cub, pla, cam, n - 1, s);
        let one = one_path_spec(rt, sph, cub, pla, cam, prev.1);
        (prev.0.push(one.0), one.1)
    }
}

pub proof fn lemma_paths_prefix_len(
    rt: Raytracer,
    sph: Seq<crate::primitives::Sphere>,
    cub: Seq<crate::primitives::Cube>,
    pla: Seq<crate::primitives::Plane>,
    cam: Camera,
    n: int,
    s: u64,
)
    requires
        n >= 0,
    ensures
        paths_prefix_spec(rt, sph, cub, pla, cam, n, s).0.len() == n,
    decreases n,
{
    if n > 0 {
        lemma_paths_prefix_len(rt, sph, cub, pla, cam, n - 1, s);
    }
}

impl Raytracer {
    /// Whitted-style recursive raytracing of one ray.
    #[verifier::rlimit(100)]
    pub fn trace_ray(&self, ray: Ray, scene: &Scene, depth: u32, rng: &mut RandomSource) -> (c:
        Vec3)
        ensures
            c == trace_ray_spec(
                scene.spheres@,
                scene.cubes@,
                scene.planes@,
                scene.lights@,
                ray,
                depth,
                old(rng).state,
            ).0,
            final(rng).state == trace_ray_spec(
                scene.spheres@,
                scene.cubes@,
                scene.planes@,
                scene.lights@,
                ray,
                depth,
                old(rng).state,
            ).1,
            depth == 0 ==> c == (Vec3 { x: 0, y: 0, z: 0 }),
        decreases depth,
    {
        if depth == 0 {
            return Vec3::zero();
        }
        let hit_opt: Option<HitRecord> = scene.intersect(&ray, T_EPS, i64::MAX);
        match hit_opt {
            Some(hit) => {
                let view_dir: Vec3 = ray.direction.vneg();
                let mut color: Vec3 = hit.material.color.scale(AMBIENT);
                let ghost acc0 = color;
                let mut li: usize = 0;
                while li < scene.lights.len()
                    invariant
                        0 <= li <= scene.lights@.len(),
                        color == whitted_lights_spec(
                            scene.spheres@,
                            scene.cubes@,
                            scene.planes@,
                            scene.lights@,
                            hit,
                            view_dir,
                            acc0,
                            li as int,
                        ),
                        acc0 == hit.material.color.scale_spec(AMBIENT),
                        view_dir == ray.direction.vneg_spec(),
                    decreases scene.lights@.len() - li,
                {
                    let light: Light = scene.lights[li];
                    let ld: (Vec3, i64) = light_dir_dist(&light, hit.point);
                    let shadow_ray: Ray = Ray::new(hit.point, ld.0);
                    if scene.intersect(&shadow_ray, T_EPS, ld.1).is_none() {
                        let diff: i64 = fx_max(hit.normal.dot(ld.0), 0);
                        color = color.vadd(
                            hit.material.color.cmul(light.color).scale(diff).scale(light.intensity),
                        );
                        let reflect_dir: Vec3 = reflect(ld.0.vneg(), hit.normal);
                        let amount: i64 = fx_pow(
                            fx_max(view_dir.dot(reflect_dir), 0),
                            fx_to_exp(hit.material.shininess),
                        );
                        color = color.vadd(
                            light.color.scale(hit.material.specular).scale(amount).scale(
                                light.intensity,
                            ),
                        );
                    }
                    li = li + 1;
                }
                if hit.material.reflectivity > 0 {
                    let reflected_ray: Ray = Ray::new(hit.point, reflect(ray.direction, hit.normal));
                    let rc: Vec3 = self.trace_ray(reflected_ray, scene, depth - 1, rng);
                    color = color.vadd(rc.scale(hit.material.reflectivity));
                }
                if hit.material.mat_type == MaterialType::Dielectric {
                    let branch: (Vec3, bool) = dielectric_branch(ray, hit, rng);
                    let refracted_ray: Ray = Ray::new(hit.point, branch.0);
                    return self.trace_ray(refracted_ray, scene, depth - 1, rng);
                }
                color
            },
            None => sky_color(ray),
        }
    }

    /// Path tracing with next-event estimation of one ray.
    #[verifier::rlimit(100)]
    pub fn trace_pathtrace(&self, ray: Ray, scene: &Scene, depth: u32, rng: &mut RandomSource) -> (c:
        Vec3)
        ensures
            c == trace_pathtrace_spec(
                scene.spheres@,
                scene.cubes@,
                scene.planes@,
                scene.lights@,
                ray,
                depth,
                old(rng).state,
            ).0,
            final(rng).state == trace_pathtrace_spec(
                scene.spheres@,
                scene.cubes@,
                scene.planes@,
                scene.lights@,
                ray,
                depth,
                old(rng).state,
            ).1,
            depth == 0 ==> c == (Vec3 { x: 0, y: 0, z: 0 }),
        decreases depth,
    {
        if depth == 0 {
            return Vec3::zero();
        }
        let hit_opt: Option<HitRecord> = scene.intersect(&ray, T_EPS, i64::MAX);
        match hit_opt {
            Some(hit) => {
                let mut direct: Vec3 = Vec3::zero();
                if !is_specular(&hit.material) {
                    let mut li: usize = 0;
                    while li < scene.lights.len()
                        invariant
                            0 <= li <= scene.lights@.len(),
                            direct == pt_lights_spec(
                                scene.spheres@,
                                scene.cubes@,
                                scene.planes@,
                                scene.lights@,
                                hit,
                                ray,
                                Vec3 { x: 0, y: 0, z: 0 },
                                li as int,
                            ),
                        decreases scene.lights@.len() - li,
                    {
                        let light: Light = scene.lights[li];
                        direct = pt_light_term(scene, &light, &hit, ray, direct);
                        li = li + 1;
                    }
                }
                match hit.material.mat_type {
                    MaterialType::Lambertian => {
                        let rv: Vec3 = random_unit_vector(rng);
                        let scatter: Vec3 = hit.normal.vadd(rv).normalize();
                        let scattered_ray: Ray = Ray::new(hit.point, scatter);
                        let rec: Vec3 = self.trace_pathtrace(scattered_ray, scene, depth - 1, rng);
                        direct.vadd(hit.material.color.cmul(rec))
                    },
                    MaterialType::Metal => {
                        let reflected: Vec3 = reflect(ray.direction.normalize(), hit.normal);
                        let rv: Vec3 = random_unit_vector(rng);
                        let scatter: Vec3 = reflected.vadd(rv.scale(hit.material.roughness));
                        if scatter.dot(hit.normal) <= 0 {
                            direct
                        } else {
                            let scattered_ray: Ray = Ray::new(hit.point, scatter);
                            let rec: Vec3 = self.trace_pathtrace(
                                scattered_ray,
                                scene,
                                depth - 1,
                                rng,
                            );
                            direct.vadd(hit.material.color.cmul(rec))
                        }
                    },
                    MaterialType::Dielectric => {
                        let branch: (Vec3, bool) = dielectric_branch(ray, hit, rng);
                        let scattered_ray: Ray = Ray::new(hit.point, branch.0);
                        let rec: Vec3 = self.trace_pathtrace(scattered_ray, scene, depth - 1, rng);
                        direct.vadd(Vec3::new(FX_ONE, FX_ONE, FX_ONE).cmul(rec))
                    },
                }
            },
            None => sky_color(ray),
        }
    }

    /// The sample-summed radiance of pixel `(x, y)`.
    #[verifier::rlimit(100)]
    fn pixel_color_sum(
        &self,
        scene: &Scene,
        camera: &Camera,
        x: u32,
        y: u32,
        rng: &mut RandomSource,
    ) -> (c: Vec3)
        ensures
            c == pixel_samples_spec(
                *self,
                scene.spheres@,
                scene.cubes@,
                scene.planes@,
                scene.lights@,
                *camera,
                x,
                y,
                self.samples_per_pixel as int,
                old(rng).state,
            ).0,
            final(rng).state == pixel_samples_spec(
                *self,
                scene.spheres@,
                scene.cubes@,
                scene.planes@,
                scene.lights@,
                *camera,
                x,
                y,
                self.samples_per_pixel as int,
                old(rng).state,
            ).1,
    {
        let mut state: RandomSource = RandomSource { state: rng.state };
        let ghost s_px = state.state;
        let mut csum: Vec3 = Vec3::zero();
        let mut j: u32 = 0;
        while j < self.samples_per_pixel
            invariant
                0 <= j <= self.samples_per_pixel,
                csum == pixel_samples_spec(
                    *self,
                    scene.spheres@,
                    scene.cubes@,
                    scene.planes@,
                    scene.lights@,
                    *camera,
                    x,
                    y,
                    j as int,
                    s_px,
                ).0,
                state.state == pixel_samples_spec(
                    *self,
                    scene.spheres@,
                    scene.cubes@,
                    scene.planes@,
                    scene.lights@,
                    *camera,
                    x,
                    y,
                    j as int,
                    s_px,
                ).1,
            decreases self.samples_per_pixel - j,
        {
            proof {
                reveal(sample_color_spec);
            }
            let ru: i64 = state.next_unit();
            let rv: i64 = state.next_unit();
            let u: i64 = fx_div(crate::fixed::fx_add(fx_of_u32(x), ru), fx_of_u32(self.width));
            let v: i64 = fx_sub(
                FX_ONE,
                fx_div(crate::fixed::fx_add(fx_of_u32(y), rv), fx_of_u32(self.height)),
            );
            let ray: Ray = camera.get_ray(u, v);
            let c: Vec3 = match self.mode {
                RenderMode::Raytracing => self.trace_ray(ray, scene, self.max_bounces, &mut state),
                RenderMode::Pathtracing => self.trace_pathtrace(
                    ray,
                    scene,
                    self.max_bounces,
                    &mut state,
                ),
            };
            csum = csum.vadd(c);
            j = j + 1;
        }
        rng.state = state.state;
        csum
    }

    /// Renders the scene through the camera into an RGBA8 buffer, row-major
    /// with the top row first and alpha fixed at 255. The result is the
    /// function of (configuration, scene, camera, seed) that
    /// `render_prefix_spec` defines, so equal inputs give equal buffers.
    /// Positive dimensions and sampling rate are the caller's obligation.
    #[verifier::rlimit(100)]
    pub fn render(&self, scene: &Scene, camera: &Camera, rng: &mut RandomSource) -> (buf: Vec<u8>)
        requires
            self.width >= 1,
            self.height >= 1,
            self.samples_per_pixel >= 1,
        ensures
            buf@ == render_prefix_spec(
                *self,
                scene.spheres@,
                scene.cubes@,
                scene.planes@,
                scene.lights@,
                *camera,
                (self.width as int) * (self.height as int),
                old(rng).state,
            ).0,
            final(rng).state == render_prefix_spec(
                *self,
                scene.spheres@,
                scene.cubes@,
                scene.planes@,
                scene.lights@,
                *camera,
                (self.width as int) * (self.height as int),
                old(rng).state,
            ).1,
            buf@.len() == (self.width as int) * (self.height as int) * 4,
    {
        let mut state: RandomSource = RandomSource { state: rng.state };
        let ghost s0 = state.state;
        proof {
            assert((self.width as int) * (self.height as int) <= 0xFFFFFFFFFFFFFFFF)
                by (nonlinear_arith)
                requires
                    self.width <= 0xFFFFFFFFu32,
                    self.height <= 0xFFFFFFFFu32,
            {
            }
        }
        let total: u64 = (self.width as u64) * (self.height as u64);
        let mut buf: Vec<u8> = Vec::new();
        let mut p: u64 = 0;
        while p < total
            invariant
                total == (self.width as int) * (self.height as int),
                self.width >= 1,
                self.height >= 1,
                self.samples_per_pixel >= 1,
                0 <= p <= total,
                buf@ == render_prefix_spec(
                    *self,
                    scene.spheres@,
                    scene.cubes@,
                    scene.planes@,
                    scene.lights@,
                    *camera,
                    p as int,
                    s0,
                ).0,
                state.state == render_prefix_spec(
                    *self,
                    scene.spheres@,
                    scene.cubes@,
                    scene.planes@,
                    scene.lights@,
                    *camera,
                    p as int,
                    s0,
                ).1,
            decreases total - p,
        {
            let x: u32 = (p % (self.width as u64)) as u32;
            let y: u32 = (p / (self.width as u64)) as u32;
            proof {
                assert((p as int) / (self.width as int) < self.height as int) by (nonlinear_arith)
                    requires
                        self.width >= 1,
                        0 <= p as int,
                        (p as int) < (self.width as int) * (self.height as int),
                {
                }
            }
            let csum: Vec3 = self.pixel_color_sum(scene, camera, x, y, &mut state);
            let avg: Vec3 = csum.sdiv(fx_of_u32(self.samples_per_pixel));
            buf.push(quantize_channel(avg.x));
            buf.push(quantize_channel(avg.y));
            buf.push(quantize_channel(avg.z));
            buf.push(255u8);
            p = p + 1;
        }
        proof {
            lemma_render_prefix_len(
                *self,
                scene.spheres@,
                scene.cubes@,
                scene.planes@,
                scene.lights@,
                *camera,
                (self.width as int) * (self.height as int),
                s0,
            );
        }
        rng.state = state.state;
        buf
    }

    /// Walks one ray with the Whitted recorder, appending points and segment
    /// classifications to `path`.
    #[verifier::rlimit(100)]
    fn trace_path_recursive_raytracing(
        &self,
        ray: Ray,
        scene: &Scene,
        depth: u32,
        path: &mut RayPath,
        is_primary: bool,
        rng: &mut RandomSource,
    )
        ensures
            path_state_of(*final(path)) == path_rt_step_spec(
                scene.spheres@,
                scene.cubes@,
                scene.planes@,
                ray,
                depth,
                path_state_of(*old(path)),
                is_primary,
                old(rng).state,
            ).0,
            final(rng).state == path_rt_step_spec(
                scene.spheres@,
                scene.cubes@,
                scene.planes@,
                ray,
                depth,
                path_state_of(*old(path)),
                is_primary,
                old(rng).state,
            ).1,
        decreases depth,
    {
        if depth == 0 {
            path.points.push(ray.at(131072));
            let seg: RaySegmentType = if is_primary {
                RaySegmentType::Primary
            } else {
                RaySegmentType::Diffuse
            };
            path.segment_types.push(seg);
            return ;
        }
        match scene.intersect(&ray, T_EPS, i64::MAX) {
            Some(hit) => {
                path.points.push(hit.point);
                path.hit = true;
                if hit.material.mat_type == MaterialType::Dielectric {
                    let branch: (Vec3, bool) = dielectric_branch(ray, hit, rng);
                    let tag: RaySegmentType = if branch.1 {
                        RaySegmentType::Reflection
                    } else {
                        RaySegmentType::Refraction
                    };
                    let seg: RaySegmentType = if is_primary {
                        RaySegmentType::Primary
                    } else {
                        tag
                    };
                    path.segment_types.push(seg);
                    let refracted_ray: Ray = Ray::new(hit.point, branch.0);
                    self.trace_path_recursive_raytracing(
                        refracted_ray,
                        scene,
                        depth - 1,
                        path,
                        false,
                        rng,
                    );
                } else if hit.material.reflectivity > 0 {
                    let seg: RaySegmentType = if is_primary {
                        RaySegmentType::Primary
                    } else {
                        RaySegmentType::Reflection
                    };
                    path.segment_types.push(seg);
                    let reflected_ray: Ray = Ray::new(hit.point, reflect(ray.direction, hit.normal));
                    self.trace_path_recursive_raytracing(
                        reflected_ray,
                        scene,
                        depth - 1,
                        path,
                        false,
                        rng,
                    );
                } else {
                    let seg: RaySegmentType = if is_primary {
                        RaySegmentType::Primary
                    } else {
                        RaySegmentType::Diffuse
                    };
                    path.segment_types.push(seg);
                }
            },
            None => {
                path.points.push(ray.at(327680));
                let seg: RaySegmentType = if is_primary {
                    RaySegmentType::Primary
                } else {
                    RaySegmentType::Diffuse
                };
                path.segment_types.push(seg);
            },
        }
    }

    /// Walks one ray with the path-tracing recorder.
    #[verifier::rlimit(100)]
    fn trace_path_recursive_pathtracing(
        &self,
        ray: Ray,
        scene: &Scene,
        depth: u32,
        path: &mut RayPath,
        is_primary: bool,
        rng: &mut RandomSource,
    )
        ensures
            path_state_of(*final(path)) == path_pt_step_spec(
                scene.spheres@,
                scene.cubes@,
                scene.planes@,
                ray,
                depth,
                path_state_of(*old(path)),
                is_primary,
                old(rng).state,
            ).0,
            final(rng).state == path_pt_step_spec(
                scene.spheres@,
                scene.cubes@,
                scene.planes@,
                ray,
                depth,
                path_state_of(*old(path)),
                is_primary,
                old(rng).state,
            ).1,
        decreases depth,
    {
        if depth == 0 {
            path.points.push(ray.at(131072));
            let seg: RaySegmentType = if is_primary {
                RaySegmentType::Primary
            } else {
                RaySegmentType::Diffuse
            };
            path.segment_types.push(seg);
            return ;
        }
        match scene.intersect(&ray, T_EPS, i64::MAX) {
            Some(hit) => {
                path.points.push(hit.point);
                path.hit = true;
                match hit.material.mat_type {
                    MaterialType::Lambertian => {
                        let rv: Vec3 = random_unit_vector(rng);
                        let scatter: Vec3 = hit.normal.vadd(rv);
                        let seg: RaySegmentType = if is_primary {
                            RaySegmentType::Primary
                        } else {
                            RaySegmentType::Diffuse
                        };
                        path.segment_types.push(seg);
                        let scattered_ray: Ray = Ray::new(hit.point, scatter);
                        self.trace_path_recursive_pathtracing(
                            scattered_ray,
                            scene,
                            depth - 1,
                            path,
                            false,
                            rng,
                        );
                    },
                    MaterialType::Metal => {
                        let reflected: Vec3 = reflect(ray.direction.normalize(), hit.normal);
                        let rv: Vec3 = random_unit_vector(rng);
                        let scatter: Vec3 = reflected.vadd(rv.scale(hit.material.roughness));
                        let seg: RaySegmentType = if is_primary {
                            RaySegmentType::Primary
                        } else {
                            RaySegmentType::Reflection
                        };
                        path.segment_types.push(seg);
                        let scattered_ray: Ray = Ray::new(hit.point, scatter);
                        self.trace_path_recursive_pathtracing(
                            scattered_ray,
                            scene,
                            depth - 1,
                            path,
                            false,
                            rng,
                        );
                    },
                    MaterialType::Dielectric => {
                        let branch: (Vec3, bool) = dielectric_branch(ray, hit, rng);
                        let tag: RaySegmentType = if branch.1 {
                            RaySegmentType::Reflection
                        } else {
                            RaySegmentType::Refraction
                        };
                        let seg: RaySegmentType = if is_primary {
                            RaySegmentType::Primary
                        } else {
                            tag
                        };
                        path.segment_types.push(seg);
                        let scattered_ray: Ray = Ray::new(hit.point, branch.0);
                        self.trace_path_recursive_pathtracing(
                            scattered_ray,
                            scene,
                            depth - 1,
                            path,
                            false,
                            rng,
                        );
                    },
                }
            },
            None => {
                path.points.push(ray.at(327680));
                let seg: RaySegmentType = if is_primary {
                    RaySegmentType::Primary
                } else {
                    RaySegmentType::Diffuse
                };
                path.segment_types.push(seg);
            },
        }
    }

    /// Produces `count` classified debug ray paths through random image
    /// coordinates, walking the same branching decisions as the configured
    /// integrator. Every path visits at least two points, carries exactly one
    /// classification per segment, and starts with a Primary segment.
    #[verifier::rlimit(100)]
    pub fn trace_paths(&self, scene: &Scene, camera: &Camera, count: usize, rng: &mut RandomSource)
        -> (paths: Vec<RayPath>)
        ensures
            paths@.len() == count,
            forall|k: int|
                0 <= k < count ==> path_state_of(#[trigger] paths@[k]) == paths_prefix_spec(
                    *self,
                    scene.spheres@,
                    scene.cubes@,
                    scene.planes@,
                    *camera,
                    count as int,
                    old(rng).state,
                ).0[k],
            final(rng).state == paths_prefix_spec(
                *self,
                scene.spheres@,
                scene.cubes@,
                scene.planes@,
                *camera,
                count as int,
                old(rng).state,
            ).1,
            forall|k: int|
                0 <= k < count ==> {
                    let p = #[trigger] paths@[k];
                    &&& p.points@.len() >= 2
                    &&& p.segment_types@.len() == p.points@.len() - 1
                    &&& p.segment_types@[0] == RaySegmentType::Primary
                },
    {
        let mut state: RandomSource = RandomSource { state: rng.state };
        let ghost s0 = state.state;
        let mut paths: Vec<RayPath> = Vec::new();
        let mut n: usize = 0;
        while n < count
            invariant
                0 <= n <= count,
                paths@.len() == n,
                forall|k: int|
                    0 <= k < n ==> path_state_of(#[trigger] paths@[k]) == paths_prefix_spec(
                        *self,
                        scene.spheres@,
                        scene.cubes@,
                        scene.planes@,
                        *camera,
                        n as int,
                        s0,
                    ).0[k],
                state.state == paths_prefix_spec(
                    *self,
                    scene.spheres@,
                    scene.cubes@,
                    scene.planes@,
                    *camera,
                    n as int,
                    s0,
                ).1,
                forall|k: int|
                    0 <= k < n ==> {
                        let p = #[trigger] paths@[k];
                        &&& p.points@.len() >= 2
                        &&& p.segment_types@.len() == p.points@.len() - 1
                        &&& p.segment_types@[0] == RaySegmentType::Primary
                    },
            decreases count - n,
        {
            let ghost paths_snap = paths@;
            let path: RayPath = self.one_debug_path(scene, camera, &mut state);
            paths.push(path);
            proof {
                let pfx = paths_prefix_spec(
                    *self,
                    scene.spheres@,
                    scene.cubes@,
                    scene.planes@,
                    *camera,
                    n as int,
                    s0,
                );
                let pfx2 = paths_prefix_spec(
                    *self,
                    scene.spheres@,
                    scene.cubes@,
                    scene.planes@,
                    *camera,
                    n as int + 1,
                    s0,
                );
                lemma_paths_prefix_len(
                    *self,
                    scene.spheres@,
                    scene.cubes@,
                    scene.planes@,
                    *camera,
                    n as int,
                    s0,
                );
                lemma_paths_prefix_len(
                    *self,
                    scene.spheres@,
                    scene.cubes@,
                    scene.planes@,
                    *camera,
                    n as int + 1,
                    s0,
                );
                assert(pfx2.0 == pfx.0.push(one_path_spec(
                    *self,
                    scene.spheres@,
                    scene.cubes@,
                    scene.planes@,
                    *camera,
                    pfx.1,
                ).0));
                assert(paths@ == paths_snap.push(path));
                assert forall|k: int| 0 <= k < n + 1 implies path_state_of(
                    #[trigger] paths@[k],
                ) == pfx2.0[k] by {
                    if k < n {
                        assert(paths@[k] == paths_snap[k]);
                        assert(pfx2.0[k] == pfx.0[k]);
                    } else {
                        assert(paths@[k] == path);
                        assert(pfx2.0[k] == path_state_of(path));
                    }
                }
            }
            n = n + 1;
        }
        rng.state = state.state;
        paths
    }

    /// One classified debug path through random image coordinates.
    #[verifier::rlimit(100)]
    fn one_debug_path(&self, scene: &Scene, camera: &Camera, rng: &mut RandomSource) -> (path:
        RayPath)
        ensures
            path_state_of(path) == one_path_spec(
                *self,
                scene.spheres@,
                scene.cubes@,
                scene.planes@,
                *camera,
                old(rng).state,
            ).0,
            final(rng).state == one_path_spec(
                *self,
                scene.spheres@,
                scene.cubes@,
                scene.planes@,
                *camera,
                old(rng).state,
            ).1,
            path.points@.len() >= 2,
            path.segment_types@.len() == path.points@.len() - 1,
            path.segment_types@[0] == RaySegmentType::Primary,
    {
        proof {
            reveal(one_path_spec);
        }
        let mut state: RandomSource = RandomSource { state: rng.state };
        let u: i64 = state.next_unit();
        let v: i64 = state.next_unit();
        let ray: Ray = camera.get_ray(u, v);
        let mut path: RayPath = RayPath {
            points: Vec::new(),
            segment_types: Vec::new(),
            hit: false,
        };
        path.points.push(ray.origin);
        proof {
            assert(path.points@ =~= seq![ray.origin]);
            assert(path.segment_types@ =~= Seq::<RaySegmentType>::empty());
        }
        match self.mode {
            RenderMode::Raytracing => {
                proof {
                    lemma_path_rt_shape(
                        scene.spheres@,
                        scene.cubes@,
                        scene.planes@,
                        ray,
                        self.max_bounces,
                        (seq![ray.origin], Seq::<RaySegmentType>::empty(), false),
                        true,
                        state.state,
                    );
                }
                self.trace_path_recursive_raytracing(
                    ray,
                    scene,
                    self.max_bounces,
                    &mut path,
                    true,
                    &mut state,
                );
            },
            RenderMode::Pathtracing => {
                proof {
                    lemma_path_pt_shape(
                        scene.spheres@,
                        scene.cubes@,
                        scene.planes@,
                        ray,
                        self.max_bounces,
                        (seq![ray.origin], Seq::<RaySegmentType>::empty(), false),
                        true,
                        state.state,
                    );
                }
                self.trace_path_recursive_pathtracing(
                    ray,
                    scene,
                    self.max_bounces,
                    &mut path,
                    true,
                    &mut state,
                );
            },
        }
        rng.state = state.state;
        path
    }
}

} // verus!
