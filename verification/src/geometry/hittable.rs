//! What a ray can meet, and the record of a meeting.
pub mod hitable_list;
pub mod plane;
pub mod sphere;

use super::{Point3, Vec3};
use crate::material::MaterialEnum;
use crate::scalar::Scalar;
use vstd::prelude::*;

verus! {

/// The closed set of things a ray can meet.
#[derive(Debug)]
pub enum HitEnum {
    List(hitable_list::HitableList),
    Plane(plane::Plane),
    Sphere(sphere::Sphere),
}

/// The parameters along a ray at which a hit counts: those strictly between
/// `start` and `end`.
#[derive(Clone, Copy, Debug, PartialEq)]
pub struct Interval {
    pub start: Scalar,
    pub end: Scalar,
}

impl Interval {
    pub open spec fn spec_contains(self, t: Scalar) -> bool {
        self.start.spec_lt(t) && t.spec_lt(self.end)
    }

    pub fn new(start: Scalar, end: Scalar) -> (r: Interval)
        ensures
            r == (Interval { start, end }),
    {
        Interval { start, end }
    }

    #[verifier::when_used_as_spec(spec_contains)]
    pub fn contains(self, t: Scalar) -> (r: bool)
        ensures
            r == self.spec_contains(t),
    {
        self.start.lt(t) && t.lt(self.end)
    }
}

/// Where and how a ray met a surface.
///
/// `normal` is the surface normal turned against the ray; `front_face` tells
/// whether the outward normal already pointed that way.
#[derive(Clone, Copy, Debug, PartialEq)]
pub struct HitRecord {
    pub point: Point3,
    pub normal: Vec3,
    pub t: Scalar,
    pub front_face: bool,
    pub material: MaterialEnum,
}

impl HitRecord {
    /// The record of a hit at `point`, at parameter `t` of the ray, on a
    /// surface whose outward normal there is `outward_normal`; `facing` is the
    /// dot product of the ray's direction with that normal.
    pub open spec fn spec_new(
        point: Point3,
        t: Scalar,
        facing: Scalar,
        outward_normal: Vec3,
        material: MaterialEnum,
    ) -> HitRecord {
        let front_face = facing.spec_lt(Scalar::spec_zero());
        HitRecord {
            point,
            normal: if front_face {
                outward_normal
            } else {
                outward_normal.spec_neg()
            },
            t,
            front_face,
            material,
        }
    }

    /// The dot product of the ray's direction with the recorded normal,
    /// given its dot product `facing` with the outward normal: turning the
    /// normal round turns the sign of the product.
    pub open spec fn spec_against(self, facing: Scalar) -> Scalar {
        if self.front_face {
            facing
        } else {
            facing.spec_neg()
        }
    }

    #[verifier::when_used_as_spec(spec_new)]
    pub fn new(
        point: Point3,
        t: Scalar,
        facing: Scalar,
        outward_normal: Vec3,
        material: MaterialEnum,
    ) -> (r: HitRecord)
        ensures
            r == HitRecord::spec_new(point, t, facing, outward_normal, material),
    {
        let front_face = facing.lt(Scalar::zero());
        let normal = if front_face {
            outward_normal
        } else {
            std::ops::Neg::neg(outward_normal)
        };
        HitRecord { point, normal, t, front_face, material }
    }

    /// The recorded normal is against the ray: where the ray's direction has
    /// a product with the outward normal that is a number other than zero,
    /// its product with the recorded normal is under zero.
    pub proof fn lemma_normal_against_ray(
        point: Point3,
        t: Scalar,
        facing: Scalar,
        outward_normal: Vec3,
        material: MaterialEnum,
    )
        requires
            !facing.spec_is_nan(),
            facing.key() != 0,
        ensures
            HitRecord::spec_new(point, t, facing, outward_normal, material).spec_against(
                facing,
            ).spec_lt(Scalar::spec_zero()),
    {
    }
}

} // verus!
