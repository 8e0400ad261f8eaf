//! Points, rays and the things a ray can meet.
pub mod hittable;
pub mod ray;
pub mod vec3;

pub use hittable::hitable_list::HitableList;
pub use hittable::plane::Plane;
pub use hittable::sphere::Sphere;
pub use hittable::{HitEnum, HitRecord, Interval};
pub use ray::Ray;
pub use vec3::{Color, Point3, Vec3};

use vstd::prelude::*;

verus! {

/// A scene together with the size of the picture to take of it.
#[derive(Debug)]
pub struct SceneDescription {
    pub hittable: HitableList,
    pub camera_width: u32,
    pub camera_height: u32,
}

} // verus!
