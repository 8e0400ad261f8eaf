//! What a surface does with a ray that meets it.
//!
//! A material decides from what the caller measured at the hit: whether the
//! ray goes on, in which direction, and how much of its light is kept.
pub mod dialectric;
pub mod lambertian;
pub mod metal;

pub use dialectric::{Bend, Dialectric};
pub use lambertian::Lambertian;
pub use metal::Metal;

use vstd::prelude::*;

verus! {

/// The closed set of materials.
#[derive(Clone, Copy, Debug, PartialEq)]
pub enum MaterialEnum {
    Dialectric(Dialectric),
    Lambertian(Lambertian),
    Metal(Metal),
}

} // verus!
