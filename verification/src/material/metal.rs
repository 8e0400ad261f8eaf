//! The mirror, polished or brushed.
use super::MaterialEnum;
use crate::geometry::hittable::HitRecord;
use crate::geometry::{Color, Ray, Vec3};
use crate::scalar::Scalar;
use vstd::prelude::*;

verus! {

/// A reflecting surface. Without a roughness it is a perfect mirror; with
/// one, the reflection is blurred by that much of a random unit vector.
#[derive(Clone, Copy, Debug, PartialEq)]
pub struct Metal {
    pub albedo: Color,
    pub roughness: Option<Scalar>,
}

impl Metal {
    /// A roughness as a metal keeps it: held to the interval from 0 to 1.
    pub open spec fn spec_roughness(roughness: Option<Scalar>) -> Option<Scalar> {
        match roughness {
            Some(x) => Some(x.spec_clamp(Scalar::spec_zero(), Scalar::spec_one())),
            None => None,
        }
    }

    /// Whether the roughness, if there is one, is a value from 0 to 1 (or a
    /// NaN, which no clamping mends).
    pub open spec fn well_formed(self) -> bool {
        match self.roughness {
            Some(x) => x.spec_is_nan() || (Scalar::spec_zero().spec_le(x) && x.spec_le(
                Scalar::spec_one(),
            )),
            None => true,
        }
    }

    pub fn new(albedo: Color, roughness: Option<Scalar>) -> (r: MaterialEnum)
        ensures
            r == MaterialEnum::Metal(Metal { albedo, roughness: Self::spec_roughness(roughness) }),
            r->Metal_0.well_formed(),
    {
        let roughness = match roughness {
            Some(x) => Some(x.clamp(Scalar::zero(), Scalar::one())),
            None => None,
        };
        MaterialEnum::Metal(Metal { albedo, roughness })
    }

    /// Scatters at `hit_record`. `reflected` is the mirrored unit direction
    /// of the incoming ray, with the blur already added; `alignment` is its
    /// dot product with the surface normal. The ray goes on exactly when the
    /// reflection points out of the surface; one that points into it is
    /// absorbed.
    pub fn scatter(&self, hit_record: &HitRecord, reflected: Vec3, alignment: Scalar) -> (r: Option<
        (Color, Ray),
    >)
        ensures
            r is Some <==> alignment.spec_gt(Scalar::spec_zero()),
            r is Some ==> r == Some(
                (self.albedo, Ray { origin: hit_record.point, direction: reflected }),
            ),
    {
        if alignment.gt(Scalar::zero()) {
            Some((self.albedo, Ray::new(hit_record.point, reflected)))
        } else {
            None
        }
    }
}

} // verus!
