use raytracer::fixed::{
    fx_abs, fx_add, fx_cos, fx_div, fx_max, fx_min, fx_mul, fx_pow, fx_sin, fx_sqrt, fx_sub,
    fx_tan, FX_HALF, FX_HALF_PI, FX_ONE,
};
use raytracer::math::{reflect, reflectance, refract, RandomSource};
use raytracer::vec3::Vec3;

#[test]
fn mul_exact_products() {
    assert_eq!(fx_mul(2 * FX_ONE, 3 * FX_ONE), 6 * FX_ONE);
    assert_eq!(fx_mul(-2 * FX_ONE, 3 * FX_ONE), -6 * FX_ONE);
    assert_eq!(fx_mul(-FX_HALF, -FX_HALF), FX_ONE / 4);
    assert_eq!(fx_mul(0, 12345), 0);
}

#[test]
fn mul_saturates() {
    assert_eq!(fx_mul(i64::MAX, 2 * FX_ONE), i64::MAX);
    assert_eq!(fx_mul(i64::MAX, -2 * FX_ONE), i64::MIN);
}

#[test]
fn div_exact_quotients() {
    assert_eq!(fx_div(FX_ONE, 2 * FX_ONE), FX_HALF);
    assert_eq!(fx_div(6 * FX_ONE, -3 * FX_ONE), -2 * FX_ONE);
}

#[test]
fn div_by_zero_saturates_toward_sign() {
    assert_eq!(fx_div(5, 0), i64::MAX);
    assert_eq!(fx_div(-5, 0), i64::MIN);
    assert_eq!(fx_div(0, 0), 0);
}

#[test]
fn add_sub_saturate() {
    assert_eq!(fx_add(i64::MAX, 1), i64::MAX);
    assert_eq!(fx_sub(i64::MIN, 1), i64::MIN);
    assert_eq!(fx_add(FX_ONE, FX_ONE), 2 * FX_ONE);
}

#[test]
fn sqrt_exact_squares() {
    assert_eq!(fx_sqrt(4 * FX_ONE), 2 * FX_ONE);
    assert_eq!(fx_sqrt(FX_ONE), FX_ONE);
    assert_eq!(fx_sqrt(0), 0);
    assert_eq!(fx_sqrt(-FX_ONE), 0);
}

#[test]
fn pow_repeated_product() {
    assert_eq!(fx_pow(2 * FX_ONE, 3), 8 * FX_ONE);
    assert_eq!(fx_pow(7 * FX_ONE, 0), FX_ONE);
    assert_eq!(fx_pow(0, 5), 0);
}

#[test]
fn min_max_abs() {
    assert_eq!(fx_min(3, -4), -4);
    assert_eq!(fx_max(3, -4), 3);
    assert_eq!(fx_abs(-7), 7);
    assert_eq!(fx_abs(i64::MIN), i64::MAX);
}

#[test]
fn trig_near_reference_values() {
    assert_eq!(fx_sin(0), 0);
    let cos0: i64 = fx_cos(0);
    assert!((cos0 - FX_ONE).abs() < 64, "cos(0) = {cos0}");
    let s: i64 = fx_sin(FX_HALF_PI);
    assert!((s - FX_ONE).abs() < 64, "sin(right angle) = {s}");
    // tan(pi/4) is 1
    let t: i64 = fx_tan(FX_HALF_PI / 2);
    assert!((t - FX_ONE).abs() < 256, "tan(eighth turn) = {t}");
}

#[test]
fn reflect_mirrors_about_normal() {
    let v: Vec3 = Vec3::new(FX_ONE, -FX_ONE, 0);
    let n: Vec3 = Vec3::new(0, FX_ONE, 0);
    assert_eq!(reflect(v, n), Vec3::new(FX_ONE, FX_ONE, 0));
}

#[test]
fn refract_straight_through_at_matched_index() {
    let uv: Vec3 = Vec3::new(0, 0, -FX_ONE);
    let n: Vec3 = Vec3::new(0, 0, FX_ONE);
    assert_eq!(refract(uv, n, FX_ONE), Vec3::new(0, 0, -FX_ONE));
}

#[test]
fn reflectance_at_normal_incidence() {
    // r0 = ((1 - 1.5) / (1 + 1.5))^2 = 0.04, and the Schlick term vanishes
    // at cosine 1.
    assert_eq!(reflectance(FX_ONE, 98304), 2621);
}

#[test]
fn vector_algebra_basics() {
    let a: Vec3 = Vec3::new(FX_ONE, 2 * FX_ONE, 3 * FX_ONE);
    let b: Vec3 = Vec3::new(-FX_ONE, FX_ONE, 0);
    assert_eq!(a.vadd(b), Vec3::new(0, 3 * FX_ONE, 3 * FX_ONE));
    assert_eq!(a.vsub(b), Vec3::new(2 * FX_ONE, FX_ONE, 3 * FX_ONE));
    assert_eq!(a.dot(b), FX_ONE);
    assert_eq!(
        Vec3::new(FX_ONE, 0, 0).cross(Vec3::new(0, FX_ONE, 0)),
        Vec3::new(0, 0, FX_ONE)
    );
    assert_eq!(Vec3::new(0, 3 * FX_ONE, 4 * FX_ONE).length(), 5 * FX_ONE);
    assert_eq!(
        Vec3::new(0, 0, 9 * FX_ONE).normalize(),
        Vec3::new(0, 0, FX_ONE)
    );
    assert_eq!(Vec3::zero().normalize(), Vec3::zero());
}

#[test]
fn random_source_is_deterministic() {
    let mut a: RandomSource = RandomSource::new(5);
    let mut b: RandomSource = RandomSource::new(5);
    for _ in 0..16 {
        assert_eq!(a.next_word(), b.next_word());
    }
    let mut c: RandomSource = RandomSource::new(0);
    assert_ne!(c.state, 0);
    let u: i64 = c.next_unit();
    assert!((0..FX_ONE).contains(&u));
    let s: i64 = c.next_sym();
    assert!((-FX_ONE..=FX_ONE).contains(&s));
}
