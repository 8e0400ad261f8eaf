//! A ray: where it starts and which way it goes.
use super::vec3::{Point3, Vec3};
use vstd::prelude::*;

verus! {

/// A half-line from `origin` along `direction`. The direction need not have
/// unit length.
#[derive(Clone, Copy, Debug, PartialEq)]
pub struct Ray {
    pub origin: Point3,
    pub direction: Vec3,
}

impl Ray {
    pub fn new(origin: Point3, direction: Vec3) -> (r: Ray)
        ensures
            r == (Ray { origin, direction }),
    {
        Ray { origin, direction }
    }
}

impl Default for Ray {
    fn default() -> (r: Ray)
        ensures
            r == (Ray { origin: Vec3::spec_zeros(), direction: Vec3::spec_zeros() }),
    {
        Ray { origin: Vec3::zeros(), direction: Vec3::zeros() }
    }
}

} // verus!
