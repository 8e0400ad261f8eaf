//! The unbounded plane.
use super::{HitEnum, HitRecord, Interval};
use crate::geometry::{Point3, Vec3};
use crate::material::MaterialEnum;
use crate::scalar::Scalar;
use vstd::prelude::*;

verus! {

/// The pattern of `1e-6`: a ray whose direction has a dot product with the
/// normal no further from zero than this runs along the plane.
pub const PARALLEL: u64 = 0x3EB0_C6F7_A0B5_ED8D;

/// The plane through `point` with unit normal `normal`.
#[derive(Clone, Copy, Debug, PartialEq)]
pub struct Plane {
    pub point: Point3,
    pub normal: Vec3,
    pub material: MaterialEnum,
}

impl Plane {
    /// Whether a ray runs along the plane, given the dot product `denom` of
    /// its direction with the normal.
    pub open spec fn spec_parallel(denom: Scalar) -> bool {
        denom.spec_abs().spec_le(Scalar { bits: PARALLEL })
    }

    /// The parameter at which a ray meets the plane: `t`, unless the ray
    /// runs along the plane or `t` lies outside `range`.
    pub open spec fn spec_root(denom: Scalar, t: Scalar, range: Interval) -> Option<Scalar> {
        if Plane::spec_parallel(denom) {
            None
        } else if range.spec_contains(t) {
            Some(t)
        } else {
            None
        }
    }

    /// The plane through `point` with the given normal, which the caller has
    /// brought to unit length.
    pub fn new(point: Point3, normal: Vec3, material: MaterialEnum) -> (r: HitEnum)
        ensures
            r == HitEnum::Plane(Plane { point, normal, material }),
    {
        HitEnum::Plane(Plane { point, normal, material })
    }

    /// Decides whether a ray meets the plane. `denom` is the dot product of
    /// the ray's direction with the normal, and `t` is the dot product of the
    /// normal with the vector from the ray's origin to the plane's point,
    /// divided by `denom`. A ray at right angles to the normal meets nothing,
    /// wherever it starts.
    #[verifier::when_used_as_spec(spec_root)]
    pub fn root(denom: Scalar, t: Scalar, range: Interval) -> (r: Option<Scalar>)
        ensures
            r == Plane::spec_root(denom, t, range),
            denom.spec_same(Scalar::spec_zero()) ==> r is None,
            r is Some ==> range.spec_contains(r.unwrap()),
    {
        if denom.abs().le(Scalar::from_bits(PARALLEL)) {
            None
        } else if range.contains(t) {
            Some(t)
        } else {
            None
        }
    }

    /// The record of a hit on this plane at `point`, at parameter `t`.
    /// `denom` is the dot product of the ray's direction with the normal.
    pub fn hit(&self, point: Point3, t: Scalar, denom: Scalar) -> (r: HitRecord)
        ensures
            r == HitRecord::spec_new(point, t, denom, self.normal, self.material),
    {
        HitRecord::new(point, t, denom, self.normal, self.material)
    }
}

} // verus!
