//! The ideal diffuse surface.
use super::MaterialEnum;
use crate::geometry::hittable::HitRecord;
use crate::geometry::{Color, Ray, Vec3};
use vstd::prelude::*;

verus! {

/// A surface that scatters every ray, in a direction near its normal, and
/// keeps `albedo` of the light.
#[derive(Clone, Copy, Debug, PartialEq)]
pub struct Lambertian {
    pub albedo: Color,
}

impl Lambertian {
    /// The direction a ray leaves in: the candidate, or the normal where the
    /// candidate is too short to be a direction.
    pub open spec fn spec_direction(hit_record: HitRecord, candidate: Vec3) -> Vec3 {
        if candidate.spec_near_zero() {
            hit_record.normal
        } else {
            candidate
        }
    }

    pub fn new(albedo: Color) -> (r: MaterialEnum)
        ensures
            r == MaterialEnum::Lambertian(Lambertian { albedo }),
    {
        MaterialEnum::Lambertian(Lambertian { albedo })
    }

    /// Scatters at `hit_record`. `candidate` is the sum of the normal and a
    /// random unit vector, which the caller draws. There is always a
    /// scattered ray: it starts at the hit, and the albedo comes with it.
    pub fn scatter(&self, hit_record: &HitRecord, candidate: Vec3) -> (r: Option<(Color, Ray)>)
        ensures
            r is Some,
            r == Some(
                (
                    self.albedo,
                    Ray {
                        origin: hit_record.point,
                        direction: Self::spec_direction(*hit_record, candidate),
                    },
                ),
            ),
    {
        let direction = if candidate.near_zero() {
            hit_record.normal
        } else {
            candidate
        };
        Some((self.albedo, Ray::new(hit_record.point, direction)))
    }
}

} // verus!
