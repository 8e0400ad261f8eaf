//! Glass, water and the like.
use super::MaterialEnum;
use crate::geometry::hittable::HitRecord;
use crate::geometry::{Color, Ray, Vec3};
use crate::scalar::Scalar;
use vstd::prelude::*;

verus! {

/// A clear surface that bends some rays and mirrors the others.
#[derive(Clone, Copy, Debug, PartialEq)]
pub struct Dialectric {
    pub index_of_refraction: Scalar,
}

/// What the caller measured where a ray meets a clear surface.
#[derive(Clone, Copy, Debug, PartialEq)]
pub struct Bend {
    /// The refraction ratio times the sine of the angle of incidence.
    /// Snell's law has no solution once this is over 1.
    pub snell: Scalar,
    /// The share of light that is mirrored at this angle.
    pub reflectance: Scalar,
    /// The mirrored unit direction.
    pub reflected: Vec3,
    /// The bent unit direction. It is read only where the ray refracts.
    pub refracted: Vec3,
}

impl Dialectric {
    /// The ratio of the refractive indices on the two sides of the surface,
    /// as the ray crosses it: the reciprocal of the index on the way in, the
    /// index itself on the way out.
    pub open spec fn spec_refraction_ratio(self, front_face: bool, reciprocal: Scalar) -> Scalar {
        if front_face {
            reciprocal
        } else {
            self.index_of_refraction
        }
    }

    /// The cosine of the angle of incidence, from the dot product of the
    /// reversed unit direction with the normal: rounding may leave the
    /// product just over 1, and no cosine is.
    pub open spec fn spec_cosine(product: Scalar) -> Scalar {
        if product.spec_is_nan() || product.spec_gt(Scalar::spec_one()) {
            Scalar::spec_one()
        } else {
            product
        }
    }

    /// Whether the ray is mirrored: always when it cannot refract, and
    /// otherwise when the reflectance is over the sample drawn.
    pub open spec fn spec_reflects(bend: Bend, sample: Scalar) -> bool {
        bend.snell.spec_gt(Scalar::spec_one()) || bend.reflectance.spec_gt(sample)
    }

    /// The direction the ray leaves in.
    pub open spec fn spec_direction(bend: Bend, sample: Scalar) -> Vec3 {
        if Self::spec_reflects(bend, sample) {
            bend.reflected
        } else {
            bend.refracted
        }
    }

    pub fn new(index_of_refraction: Scalar) -> (r: MaterialEnum)
        ensures
            r == MaterialEnum::Dialectric(Dialectric { index_of_refraction }),
    {
        MaterialEnum::Dialectric(Dialectric { index_of_refraction })
    }

    /// The refraction ratio for a hit on the given face. `reciprocal` is 1
    /// over the index of refraction.
    #[verifier::when_used_as_spec(spec_refraction_ratio)]
    pub fn refraction_ratio(self, front_face: bool, reciprocal: Scalar) -> (r: Scalar)
        ensures
            r == self.spec_refraction_ratio(front_face, reciprocal),
    {
        if front_face {
            reciprocal
        } else {
            self.index_of_refraction
        }
    }

    /// The cosine of the angle of incidence: `product`, but no more than 1.
    #[verifier::when_used_as_spec(spec_cosine)]
    pub fn cosine(product: Scalar) -> (r: Scalar)
        ensures
            r == Dialectric::spec_cosine(product),
            r.spec_le(Scalar::spec_one()),
    {
        if product.is_nan() || product.gt(Scalar::one()) {
            Scalar::one()
        } else {
            product
        }
    }

    /// Scatters at `hit_record`. `sample` is drawn uniformly from 0 to 1 by
    /// the caller. There is always a scattered ray, and nothing is absorbed:
    /// the attenuation is white. Under total internal reflection the ray is
    /// mirrored whatever the sample.
    pub fn scatter(&self, hit_record: &HitRecord, bend: &Bend, sample: Scalar) -> (r: Option<
        (Color, Ray),
    >)
        ensures
            r == Some(
                (
                    Vec3::spec_ones(),
                    Ray {
                        origin: hit_record.point,
                        direction: Self::spec_direction(*bend, sample),
                    },
                ),
            ),
            bend.snell.spec_gt(Scalar::spec_one()) ==> r.unwrap().1.direction == bend.reflected,
    {
        let direction = if bend.snell.gt(Scalar::one()) || bend.reflectance.gt(sample) {
            bend.reflected
        } else {
            bend.refracted
        };
        Some((Vec3::ones(), Ray::new(hit_record.point, direction)))
    }
}

} // verus!
