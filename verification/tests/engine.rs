use raytracer::camera::Camera;
use raytracer::fixed::{fx_mul, FX_ONE};
use raytracer::math::{RandomSource, Ray};
use raytracer::primitives::{Cube, Material, MaterialType, Plane, Sphere};
use raytracer::raytracer::{RaySegmentType, Raytracer, RenderMode, AMBIENT, T_EPS};
use raytracer::scene::Scene;
use raytracer::vec3::Vec3;

fn diffuse(color: Vec3) -> Material {
    Material {
        color,
        specular: 0,
        shininess: 0,
        reflectivity: 0,
        roughness: FX_ONE,
        ior: 98304,
        mat_type: MaterialType::Lambertian,
    }
}

fn empty_scene() -> Scene {
    Scene {
        spheres: Vec::new(),
        cubes: Vec::new(),
        planes: Vec::new(),
        lights: Vec::new(),
    }
}

fn config(mode: RenderMode) -> Raytracer {
    Raytracer {
        width: 8,
        height: 6,
        max_bounces: 3,
        samples_per_pixel: 1,
        mode,
    }
}

#[test]
fn sphere_hit_from_outside_lies_on_surface() {
    let sphere: Sphere = Sphere {
        center: Vec3::zero(),
        radius: FX_ONE,
        material: diffuse(Vec3::new(FX_ONE, 0, 0)),
    };
    let ray: Ray = Ray::new(Vec3::new(0, 0, 5 * FX_ONE), Vec3::new(0, 0, -FX_ONE));
    let hit = sphere.intersect(&ray, T_EPS, i64::MAX).expect("must hit");
    assert_eq!(hit.t, 4 * FX_ONE);
    assert_eq!(hit.point, Vec3::new(0, 0, FX_ONE));
    assert_eq!(hit.normal, Vec3::new(0, 0, FX_ONE));

    // An oblique ray still lands on the surface, within rounding.
    let ray2: Ray = Ray::new(
        Vec3::new(3 * FX_ONE, 2 * FX_ONE, 5 * FX_ONE),
        Vec3::new(-3 * FX_ONE, -2 * FX_ONE, -5 * FX_ONE),
    );
    let hit2 = sphere.intersect(&ray2, T_EPS, i64::MAX).expect("must hit");
    let dist: i64 = hit2.point.vsub(sphere.center).length();
    assert!(
        (dist - FX_ONE).abs() < 512,
        "surface distance off by {}",
        dist - FX_ONE
    );
    let unit: Vec3 = hit2.point.vsub(sphere.center).normalize();
    assert!((unit.vsub(hit2.normal)).length() < 512);
}

#[test]
fn sphere_misses_outside_window() {
    let sphere: Sphere = Sphere {
        center: Vec3::zero(),
        radius: FX_ONE,
        material: diffuse(Vec3::new(FX_ONE, 0, 0)),
    };
    let ray: Ray = Ray::new(Vec3::new(0, 0, 5 * FX_ONE), Vec3::new(0, 0, -FX_ONE));
    assert!(sphere.intersect(&ray, T_EPS, 3 * FX_ONE).is_none());
    let away: Ray = Ray::new(Vec3::new(0, 0, 5 * FX_ONE), Vec3::new(0, 0, FX_ONE));
    assert!(away.direction.z > 0 && sphere.intersect(&away, T_EPS, i64::MAX).is_none());
}

#[test]
fn cube_slab_hit_at_front_face() {
    let cube: Cube = Cube {
        min: Vec3::new(-FX_ONE, -FX_ONE, -FX_ONE),
        max: Vec3::new(FX_ONE, FX_ONE, FX_ONE),
        material: diffuse(Vec3::new(0, FX_ONE, 0)),
    };
    let ray: Ray = Ray::new(Vec3::new(0, 0, 5 * FX_ONE), Vec3::new(0, 0, -FX_ONE));
    let hit = cube.intersect(&ray, T_EPS, i64::MAX).expect("must hit");
    assert_eq!(hit.t, 4 * FX_ONE);
    assert_eq!(hit.normal, Vec3::new(0, 0, FX_ONE));
    assert_eq!(hit.point, Vec3::new(0, 0, FX_ONE));
}

#[test]
fn cube_axis_parallel_ray_outside_slab_misses() {
    let cube: Cube = Cube {
        min: Vec3::new(-FX_ONE, -FX_ONE, -FX_ONE),
        max: Vec3::new(FX_ONE, FX_ONE, FX_ONE),
        material: diffuse(Vec3::new(0, FX_ONE, 0)),
    };
    let ray: Ray = Ray::new(Vec3::new(3 * FX_ONE, 0, 5 * FX_ONE), Vec3::new(0, 0, -FX_ONE));
    assert!(cube.intersect(&ray, T_EPS, i64::MAX).is_none());
}

#[test]
fn cube_ray_starting_inside_is_rejected() {
    let cube: Cube = Cube {
        min: Vec3::new(-FX_ONE, -FX_ONE, -FX_ONE),
        max: Vec3::new(FX_ONE, FX_ONE, FX_ONE),
        material: diffuse(Vec3::new(0, FX_ONE, 0)),
    };
    // From inside the box no slab entry wins the window, so no face normal
    // exists and the query reports no hit: every accepted cube hit carries
    // a unit outward axis-sign normal.
    let ray: Ray = Ray::new(Vec3::zero(), Vec3::new(0, 0, -FX_ONE));
    assert!(cube.intersect(&ray, T_EPS, i64::MAX).is_none());
}

#[test]
fn default_configurations() {
    let rt: Raytracer = Raytracer::default();
    assert_eq!(rt.width, 200);
    assert_eq!(rt.height, 150);
    assert_eq!(rt.max_bounces, 3);
    assert_eq!(rt.samples_per_pixel, 1);
    assert_eq!(rt.mode, RenderMode::Raytracing);

    let m: Material = Material::default();
    assert_eq!(m.color, Vec3::new(FX_ONE, FX_ONE, FX_ONE));
    assert_eq!(m.specular, 32768);
    assert_eq!(m.mat_type, MaterialType::Lambertian);

    let cam: Camera = Camera::default();
    assert_eq!(cam.fov, 45 * FX_ONE);
    assert_eq!(cam.transform.position, Vec3::new(0, 163840, 6 * FX_ONE));
}

#[test]
fn plane_hit_and_parallel_reject() {
    let plane: Plane = Plane {
        point: Vec3::zero(),
        normal: Vec3::new(0, FX_ONE, 0),
        material: diffuse(Vec3::new(FX_ONE, FX_ONE, FX_ONE)),
    };
    let down: Ray = Ray::new(Vec3::new(0, 2 * FX_ONE, 0), Vec3::new(0, -FX_ONE, 0));
    let hit = plane.intersect(&down, T_EPS, i64::MAX).expect("must hit");
    assert_eq!(hit.t, 2 * FX_ONE);
    assert_eq!(hit.normal, Vec3::new(0, FX_ONE, 0));
    let level: Ray = Ray::new(Vec3::new(0, 2 * FX_ONE, 0), Vec3::new(FX_ONE, 0, 0));
    assert!(plane.intersect(&level, T_EPS, i64::MAX).is_none());
}

#[test]
fn closest_hit_wins_across_scan_order() {
    let near_color: Vec3 = Vec3::new(FX_ONE, 0, 0);
    let far_color: Vec3 = Vec3::new(0, FX_ONE, 0);
    let mut scene: Scene = empty_scene();
    // The farther sphere is scanned first; the nearer one must still win.
    scene.spheres.push(Sphere {
        center: Vec3::new(0, 0, -3 * FX_ONE),
        radius: FX_ONE,
        material: diffuse(far_color),
    });
    scene.spheres.push(Sphere {
        center: Vec3::zero(),
        radius: FX_ONE,
        material: diffuse(near_color),
    });
    let ray: Ray = Ray::new(Vec3::new(0, 0, 5 * FX_ONE), Vec3::new(0, 0, -FX_ONE));
    let hit = scene.intersect(&ray, T_EPS, i64::MAX).expect("must hit");
    assert_eq!(hit.material.color, near_color);
    assert_eq!(hit.t, 4 * FX_ONE);
}

#[test]
fn scene_intersect_empty_is_none() {
    let scene: Scene = empty_scene();
    let ray: Ray = Ray::new(Vec3::zero(), Vec3::new(0, 0, -FX_ONE));
    assert!(scene.intersect(&ray, T_EPS, i64::MAX).is_none());
}

#[test]
fn whitted_ambient_only_is_tenth_of_color() {
    let color: Vec3 = Vec3::new(52429, 6554, 6554);
    let mut scene: Scene = empty_scene();
    scene.spheres.push(Sphere {
        center: Vec3::zero(),
        radius: FX_ONE,
        material: diffuse(color),
    });
    let rt: Raytracer = config(RenderMode::Raytracing);
    let mut rng: RandomSource = RandomSource::new(7);
    let ray: Ray = Ray::new(Vec3::new(0, 0, 5 * FX_ONE), Vec3::new(0, 0, -FX_ONE));
    let c: Vec3 = rt.trace_ray(ray, &scene, 3, &mut rng);
    let expected: Vec3 = Vec3::new(
        fx_mul(color.x, AMBIENT),
        fx_mul(color.y, AMBIENT),
        fx_mul(color.z, AMBIENT),
    );
    assert_eq!(c, expected);
    // The all-deterministic branch consumed no randomness.
    assert_eq!(rng.state, RandomSource::new(7).state);
}

#[test]
fn sky_gradient_up_and_down() {
    let scene: Scene = empty_scene();
    let rt: Raytracer = config(RenderMode::Raytracing);
    let mut rng: RandomSource = RandomSource::new(1);
    let up: Ray = Ray::new(Vec3::zero(), Vec3::new(0, FX_ONE, 0));
    assert_eq!(
        rt.trace_ray(up, &scene, 3, &mut rng),
        Vec3::new(32768, 45875, FX_ONE)
    );
    let down: Ray = Ray::new(Vec3::zero(), Vec3::new(0, -FX_ONE, 0));
    assert_eq!(
        rt.trace_ray(down, &scene, 3, &mut rng),
        Vec3::new(FX_ONE, FX_ONE, FX_ONE)
    );
    let mut rng2: RandomSource = RandomSource::new(1);
    assert_eq!(
        rt.trace_pathtrace(up, &scene, 3, &mut rng2),
        Vec3::new(32768, 45875, FX_ONE)
    );
}

#[test]
fn both_integrators_return_black_at_depth_zero() {
    let scene: Scene = Scene::default();
    let rt: Raytracer = config(RenderMode::Raytracing);
    let mut rng: RandomSource = RandomSource::new(3);
    let ray: Ray = Ray::new(Vec3::new(0, 0, 5 * FX_ONE), Vec3::new(0, 0, -FX_ONE));
    assert_eq!(rt.trace_ray(ray, &scene, 0, &mut rng), Vec3::zero());
    assert_eq!(rt.trace_pathtrace(ray, &scene, 0, &mut rng), Vec3::zero());
}

#[test]
fn ray_paths_keep_shape_invariant() {
    let scene: Scene = Scene::default();
    let mut camera: Camera = Camera::default();
    camera.look_at(Vec3::zero());
    for mode in [RenderMode::Raytracing, RenderMode::Pathtracing] {
        let rt: Raytracer = config(mode);
        let mut rng: RandomSource = RandomSource::new(99);
        let paths = rt.trace_paths(&scene, &camera, 12, &mut rng);
        assert_eq!(paths.len(), 12);
        for p in &paths {
            assert!(p.points.len() >= 2);
            assert_eq!(p.segment_types.len(), p.points.len() - 1);
            assert_eq!(p.segment_types[0], RaySegmentType::Primary);
        }
    }
}

#[test]
fn render_is_deterministic_under_fixed_seed() {
    let scene: Scene = Scene::default();
    let mut camera: Camera = Camera::default();
    camera.look_at(Vec3::zero());
    for mode in [RenderMode::Raytracing, RenderMode::Pathtracing] {
        let rt: Raytracer = config(mode);
        let mut rng1: RandomSource = RandomSource::new(42);
        let mut rng2: RandomSource = RandomSource::new(42);
        let buf1: Vec<u8> = rt.render(&scene, &camera, &mut rng1);
        let buf2: Vec<u8> = rt.render(&scene, &camera, &mut rng2);
        assert_eq!(buf1, buf2);
        assert_eq!(rng1.state, rng2.state);
        let mut rng3: RandomSource = RandomSource::new(43);
        let buf3: Vec<u8> = rt.render(&scene, &camera, &mut rng3);
        assert_eq!(buf3.len(), buf1.len());
    }
}

#[test]
fn render_buffer_layout_rgba_top_first() {
    let scene: Scene = empty_scene();
    let rt: Raytracer = config(RenderMode::Raytracing);
    let mut rng: RandomSource = RandomSource::new(11);
    let buf: Vec<u8> = rt.render(&scene, &rt_camera(), &mut rng);
    assert_eq!(buf.len(), 8 * 6 * 4);
    for px in buf.chunks(4) {
        assert_eq!(px[3], 255);
    }
}

fn rt_camera() -> Camera {
    let mut camera: Camera = Camera::default();
    camera.look_at(Vec3::zero());
    camera
}

#[test]
fn camera_rays_start_at_position() {
    let camera: Camera = Camera::new(
        Vec3::new(0, 2 * FX_ONE, 6 * FX_ONE),
        Vec3::zero(),
        45 * FX_ONE,
        116508,
    );
    let ray: Ray = camera.get_ray(32768, 32768);
    assert_eq!(ray.origin, camera.transform.position);
    // Aimed at the origin from +z: the central ray heads toward -z.
    assert!(ray.direction.z < 0);
}

#[test]
fn look_at_straight_down_uses_fallback_axis() {
    let mut camera: Camera = Camera::default();
    camera.transform.position = Vec3::new(0, 5 * FX_ONE, 0);
    camera.look_at(Vec3::zero());
    let f: Vec3 = camera.transform.forward;
    assert_eq!(f, Vec3::new(0, -FX_ONE, 0));
    // The basis stays non-degenerate.
    assert!(camera.transform.right.length() > 0);
    assert!(camera.transform.up.length() > 0);
}

#[test]
fn default_scene_population() {
    let scene: Scene = Scene::default();
    assert_eq!(scene.spheres.len(), 5);
    assert_eq!(scene.cubes.len(), 5);
    assert_eq!(scene.planes.len(), 1);
    assert_eq!(scene.lights.len(), 3);
    assert_eq!(scene.spheres[2].material.mat_type, MaterialType::Dielectric);
    assert_eq!(scene.spheres[0].radius, 32768);
}

#[test]
fn dielectric_sphere_routes_through_secondary_ray() {
    // A glass sphere in an otherwise empty world: the Whitted result is the
    // sky seen through the reflect-or-refract branch, never local lighting.
    let mut scene: Scene = empty_scene();
    scene.spheres.push(Sphere {
        center: Vec3::zero(),
        radius: FX_ONE,
        material: Material {
            color: Vec3::new(FX_ONE, FX_ONE, FX_ONE),
            specular: FX_ONE,
            shininess: 6553600,
            reflectivity: 0,
            roughness: 0,
            ior: 98304,
            mat_type: MaterialType::Dielectric,
        },
    });
    let rt: Raytracer = config(RenderMode::Raytracing);
    let mut rng: RandomSource = RandomSource::new(21);
    let ray: Ray = Ray::new(Vec3::new(0, 0, 5 * FX_ONE), Vec3::new(0, 0, -FX_ONE));
    let c: Vec3 = rt.trace_ray(ray, &scene, 4, &mut rng);
    // Whatever branch the draw picked, the result is a sky blend, far above
    // the ambient tenth a plain diffuse hit would produce.
    assert!(c.y > 32768, "got {c:?}");
}
