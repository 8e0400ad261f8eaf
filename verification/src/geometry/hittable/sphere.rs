//! The sphere.
use super::{HitEnum, HitRecord, Interval};
use crate::geometry::{Point3, Vec3};
use crate::material::MaterialEnum;
use crate::scalar::Scalar;
use vstd::prelude::*;

verus! {

/// All points at distance `radius` from `center`.
#[derive(Clone, Copy, Debug, PartialEq)]
pub struct Sphere {
    pub center: Point3,
    pub radius: Scalar,
    pub material: MaterialEnum,
}

impl Sphere {
    /// The parameter at which a ray meets the sphere, among the two roots of
    /// the quadratic that the caller solved: none where the discriminant is
    /// under zero; else the near root where it lies in `range`; else the far
    /// root where that one does; else none.
    pub open spec fn spec_root(
        discriminant: Scalar,
        near: Scalar,
        far: Scalar,
        range: Interval,
    ) -> Option<Scalar> {
        if discriminant.spec_lt(Scalar::spec_zero()) {
            None
        } else if range.spec_contains(near) {
            Some(near)
        } else if range.spec_contains(far) {
            Some(far)
        } else {
            None
        }
    }

    pub fn new(center: Point3, radius: Scalar, material: MaterialEnum) -> (r: HitEnum)
        ensures
            r == HitEnum::Sphere(Sphere { center, radius, material }),
    {
        HitEnum::Sphere(Sphere { center, radius, material })
    }

    /// Chooses the root at which the ray meets the sphere. `near` and `far`
    /// are the smaller and the larger root of the ray's quadratic and
    /// `discriminant` is that quadratic's discriminant.
    #[verifier::when_used_as_spec(spec_root)]
    pub fn root(discriminant: Scalar, near: Scalar, far: Scalar, range: Interval) -> (r: Option<
        Scalar,
    >)
        ensures
            r == Sphere::spec_root(discriminant, near, far, range),
            r is Some ==> range.spec_contains(r.unwrap()),
    {
        if discriminant.lt(Scalar::zero()) {
            None
        } else if range.contains(near) {
            Some(near)
        } else if range.contains(far) {
            Some(far)
        } else {
            None
        }
    }

    /// The record of a hit on this sphere at `point`, at parameter `t`.
    /// `outward_normal` is the vector from the centre to the point, divided
    /// by the radius, and `facing` is the dot product of the ray's direction
    /// with it.
    pub fn hit(&self, point: Point3, t: Scalar, facing: Scalar, outward_normal: Vec3) -> (r:
        HitRecord)
        ensures
            r == HitRecord::spec_new(point, t, facing, outward_normal, self.material),
    {
        HitRecord::new(point, t, facing, outward_normal, self.material)
    }
}

} // verus!
