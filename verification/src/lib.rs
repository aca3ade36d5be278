//! A small analytic ray-scene shading engine.
//!
//! All geometry and radiometry is carried in fixed-point scalars (an `i64`
//! holding sixteen fractional bits), so every routine is deterministic and
//! fully checked: primitive intersection, the scene's closest-hit query, the
//! pinhole camera, a Whitted-style integrator, a path-tracing integrator with
//! next-event estimation, and a ray-path recorder for debug overlays.
//! Stochastic choices draw from a caller-seeded random source, so a render is
//! a pure function of scene, camera, configuration and seed.

pub mod fixed;
pub mod vec3;
pub mod math;
pub mod primitives;
pub mod scene;
pub mod camera;
pub mod raytracer;
