//! The pinhole camera: a transform, a vertical field of view in degrees and
//! an aspect ratio, mapping normalized image-plane coordinates to world-space
//! rays at unit focal distance.

use vstd::prelude::*;
use crate::fixed::{fx_mul, fx_mul_spec, fx_tan, fx_tan_spec, FX_HALF, FX_ONE};
use crate::vec3::Vec3;
use crate::math::{Ray, Transform};

verus! {

/// Degrees-to-radians factor in fixed point.
pub const FX_DEG_TO_RAD: i64 = 1144;

#[derive(Clone, Copy, PartialEq, Eq, Structural, Debug)]
pub struct Camera {
    pub transform: Transform,
    pub fov: i64,
    pub aspect_ratio: i64,
}

/// The orientation `look_at` derives: forward toward the target, right and up
/// completing a basis against a fixed world up of (0, 1, 0). When forward is
/// parallel to world up that cross product degenerates to zero; (0, 0, 1)
/// then serves as a secondary axis so the basis stays usable.
pub open spec fn look_basis_spec(position: Vec3, target: Vec3) -> (Vec3, Vec3, Vec3) {
    let forward = target.vsub_spec(position).normalize_spec();
    let first = forward.cross_spec(Vec3 { x: 0, y: FX_ONE, z: 0 }).normalize_spec();
    let right = if first == (Vec3 { x: 0, y: 0, z: 0 }) {
        forward.cross_spec(Vec3 { x: 0, y: 0, z: FX_ONE }).normalize_spec()
    } else {
        first
    };
    let up = right.cross_spec(forward).normalize_spec();
    (right, up, forward)
}

impl Camera {
    pub open spec fn look_at_spec(self, target: Vec3) -> Camera {
        let basis = look_basis_spec(self.transform.position, target);
        Camera {
            transform: Transform {
                position: self.transform.position,
                right: basis.0,
                up: basis.1,
                forward: basis.2,
                scale: self.transform.scale,
            },
            fov: self.fov,
            aspect_ratio: self.aspect_ratio,
        }
    }

    /// The default view: above and in front of the origin, a 45 degree
    /// vertical field of view and a 16:9 aspect ratio, not yet aimed.
    pub open spec fn default_spec() -> Camera {
        Camera {
            transform: Transform {
                position: Vec3 { x: 0, y: 163840, z: 393216 },
                right: Vec3 { x: FX_ONE, y: 0, z: 0 },
                up: Vec3 { x: 0, y: FX_ONE, z: 0 },
                forward: Vec3 { x: 0, y: 0, z: (-FX_ONE) as i64 },
                scale: Vec3 { x: FX_ONE, y: FX_ONE, z: FX_ONE },
            },
            fov: 2949120,
            aspect_ratio: 116508,
        }
    }

    /// The ray through normalized image coordinates `(u, v)`, `v = 1` at the
    /// image top: from the camera position toward the viewport point
    /// `lower_left_corner + horizontal * u + vertical * v`, with the viewport
    /// sized `2 * tan(fov / 2)` by that times the aspect ratio, one unit of
    /// forward away.
    pub open spec fn get_ray_spec(self, u: i64, v: i64) -> Ray {
        let theta = fx_mul_spec(self.fov, FX_DEG_TO_RAD);
        let h = fx_tan_spec(fx_mul_spec(theta, FX_HALF));
        let viewport_height = fx_mul_spec(131072, h);
        let viewport_width = fx_mul_spec(self.aspect_ratio, viewport_height);
        let horizontal = self.transform.right.scale_spec(viewport_width);
        let vertical = self.transform.up.scale_spec(viewport_height);
        let lower_left_corner = self.transform.position.vsub_spec(
            horizontal.scale_spec(FX_HALF),
        ).vsub_spec(vertical.scale_spec(FX_HALF)).vadd_spec(self.transform.forward);
        let direction = lower_left_corner.vadd_spec(horizontal.scale_spec(u)).vadd_spec(
            vertical.scale_spec(v),
        ).vsub_spec(self.transform.position);
        Ray { origin: self.transform.position, direction }
    }

    pub fn new(position: Vec3, target: Vec3, fov: i64, aspect_ratio: i64) -> (r: Camera)
        ensures
            r == (Camera {
                transform: Transform {
                    position,
                    right: Transform::identity_spec().right,
                    up: Transform::identity_spec().up,
                    forward: Transform::identity_spec().forward,
                    scale: Transform::identity_spec().scale,
                },
                fov,
                aspect_ratio,
            }).look_at_spec(target),
    {
        let base: Transform = Transform::identity();
        let mut cam: Camera = Camera {
            transform: Transform {
                position,
                right: base.right,
                up: base.up,
                forward: base.forward,
                scale: base.scale,
            },
            fov,
            aspect_ratio,
        };
        cam.look_at(target);
        cam
    }

    /// Re-aims the camera at `target`, deriving the orientation basis from
    /// the new forward direction and the fixed world up.
    pub fn look_at(&mut self, target: Vec3)
        ensures
            *final(self) == old(self).look_at_spec(target),
    {
        let forward: Vec3 = target.vsub(self.transform.position).normalize();
        let first: Vec3 = forward.cross(Vec3::new(0, FX_ONE, 0)).normalize();
        let right: Vec3 = if first.x == 0 && first.y == 0 && first.z == 0 {
            forward.cross(Vec3::new(0, 0, FX_ONE)).normalize()
        } else {
            first
        };
        let up: Vec3 = right.cross(forward).normalize();
        self.transform.right = right;
        self.transform.up = up;
        self.transform.forward = forward;
    }

    pub fn get_ray(&self, u: i64, v: i64) -> (r: Ray)
        ensures
            r == self.get_ray_spec(u, v),
    {
        let theta: i64 = fx_mul(self.fov, FX_DEG_TO_RAD);
        let h: i64 = fx_tan(fx_mul(theta, FX_HALF));
        let viewport_height: i64 = fx_mul(131072, h);
        let viewport_width: i64 = fx_mul(self.aspect_ratio, viewport_height);
        let horizontal: Vec3 = self.transform.right.scale(viewport_width);
        let vertical: Vec3 = self.transform.up.scale(viewport_height);
        let lower_left_corner: Vec3 = self.transform.position.vsub(
            horizontal.scale(FX_HALF),
        ).vsub(vertical.scale(FX_HALF)).vadd(self.transform.forward);
        let direction: Vec3 = lower_left_corner.vadd(horizontal.scale(u)).vadd(
            vertical.scale(v),
        ).vsub(self.transform.position);
        Ray::new(self.transform.position, direction)
    }
}

impl Default for Camera {
    fn default() -> (r: Camera)
        ensures
            r == Camera::default_spec(),
    {
        Camera {
            transform: Transform {
                position: Vec3 { x: 0, y: 163840, z: 393216 },
                right: Vec3 { x: FX_ONE, y: 0, z: 0 },
                up: Vec3 { x: 0, y: FX_ONE, z: 0 },
                forward: Vec3 { x: 0, y: 0, z: -FX_ONE },
                scale: Vec3 { x: FX_ONE, y: FX_ONE, z: FX_ONE },
            },
            fov: 2949120,
            aspect_ratio: 116508,
        }
    }
}

} // verus!
