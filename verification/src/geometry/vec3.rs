//! Three scalars: a point, a direction or a colour.
use crate::scalar::Scalar;
use vstd::prelude::*;

verus! {

/// The pattern of `1e-8`, under which a component counts as zero.
pub const NEAR_ZERO: u64 = 0x3E45_798E_E230_8C3A;

/// The pattern of `1e-160`: a point whose squared distance from the origin
/// is no more than this is too close to it to give a direction.
pub const TINY: u64 = 0x1EB6_7E9C_127B_6E74;

/// A triple of scalars. As a colour its components are red, green and blue.
///
/// In a program, `==` on two triples is equality of the values of their
/// components. In a contract, `==` is equality of the patterns.
#[derive(Clone, Copy, Debug)]
pub struct Vec3 {
    pub x: Scalar,
    pub y: Scalar,
    pub z: Scalar,
}

impl PartialEq for Vec3 {
    fn eq(&self, other: &Vec3) -> (r: bool) {
        self.x.same(other.x) && self.y.same(other.y) && self.z.same(other.z)
    }
}

impl vstd::std_specs::cmp::PartialEqSpecImpl for Vec3 {
    open spec fn obeys_eq_spec() -> bool {
        true
    }

    open spec fn eq_spec(&self, other: &Vec3) -> bool {
        self.spec_same(*other)
    }
}

pub type Point3 = Vec3;

pub type Color = Vec3;

impl Vec3 {
    /// The vector pointing the other way: each component with its sign
    /// flipped.
    pub open spec fn spec_neg(self) -> Vec3 {
        Vec3 { x: self.x.spec_neg(), y: self.y.spec_neg(), z: self.z.spec_neg() }
    }

    /// Whether the components have the same values, one by one.
    pub open spec fn spec_same(self, other: Vec3) -> bool {
        self.x.spec_same(other.x) && self.y.spec_same(other.y) && self.z.spec_same(other.z)
    }

    /// Whether every component is closer to zero than `1e-8`.
    pub open spec fn spec_near_zero(self) -> bool {
        let s = Scalar { bits: NEAR_ZERO };
        self.x.spec_abs().spec_lt(s) && self.y.spec_abs().spec_lt(s) && self.z.spec_abs().spec_lt(
            s,
        )
    }

    /// Whether a point at the given squared distance from the origin lies in
    /// the unit ball and far enough from its centre to give a direction.
    pub open spec fn spec_in_unit_ball(length_squared: Scalar) -> bool {
        (Scalar { bits: TINY }).spec_lt(length_squared) && length_squared.spec_le(
            Scalar::spec_one(),
        )
    }

    pub open spec fn spec_i() -> Vec3 {
        Vec3 { x: Scalar::spec_one(), y: Scalar::spec_zero(), z: Scalar::spec_zero() }
    }

    pub open spec fn spec_j() -> Vec3 {
        Vec3 { x: Scalar::spec_zero(), y: Scalar::spec_one(), z: Scalar::spec_zero() }
    }

    pub open spec fn spec_k() -> Vec3 {
        Vec3 { x: Scalar::spec_zero(), y: Scalar::spec_zero(), z: Scalar::spec_one() }
    }

    pub open spec fn spec_zeros() -> Vec3 {
        Vec3 { x: Scalar::spec_zero(), y: Scalar::spec_zero(), z: Scalar::spec_zero() }
    }

    pub open spec fn spec_ones() -> Vec3 {
        Vec3 { x: Scalar::spec_one(), y: Scalar::spec_one(), z: Scalar::spec_one() }
    }

    pub fn new(x: Scalar, y: Scalar, z: Scalar) -> (r: Vec3)
        ensures
            r == (Vec3 { x, y, z }),
    {
        Vec3 { x, y, z }
    }

    /// The unit vector along the first axis.
    #[verifier::when_used_as_spec(spec_i)]
    pub fn i() -> (r: Vec3)
        ensures
            r == Vec3::spec_i(),
    {
        Vec3::new(Scalar::one(), Scalar::zero(), Scalar::zero())
    }

    /// The unit vector along the second axis.
    #[verifier::when_used_as_spec(spec_j)]
    pub fn j() -> (r: Vec3)
        ensures
            r == Vec3::spec_j(),
    {
        Vec3::new(Scalar::zero(), Scalar::one(), Scalar::zero())
    }

    /// The unit vector along the third axis.
    #[verifier::when_used_as_spec(spec_k)]
    pub fn k() -> (r: Vec3)
        ensures
            r == Vec3::spec_k(),
    {
        Vec3::new(Scalar::zero(), Scalar::zero(), Scalar::one())
    }

    /// The origin; as a colour, black.
    #[verifier::when_used_as_spec(spec_zeros)]
    pub fn zeros() -> (r: Vec3)
        ensures
            r == Vec3::spec_zeros(),
    {
        Vec3::new(Scalar::zero(), Scalar::zero(), Scalar::zero())
    }

    /// As a colour, white.
    #[verifier::when_used_as_spec(spec_ones)]
    pub fn ones() -> (r: Vec3)
        ensures
            r == Vec3::spec_ones(),
    {
        Vec3::new(Scalar::one(), Scalar::one(), Scalar::one())
    }

    /// Decides whether a point drawn from the cube around the unit ball is
    /// kept as the source of a random direction. `length_squared` is the dot
    /// product of the point with itself.
    #[verifier::when_used_as_spec(spec_in_unit_ball)]
    pub fn in_unit_ball(length_squared: Scalar) -> (r: bool)
        ensures
            r == Vec3::spec_in_unit_ball(length_squared),
    {
        Scalar::from_bits(TINY).lt(length_squared) && length_squared.le(Scalar::one())
    }

    #[verifier::when_used_as_spec(spec_near_zero)]
    pub fn near_zero(self) -> (r: bool)
        ensures
            r == self.spec_near_zero(),
    {
        let s = Scalar::from_bits(NEAR_ZERO);
        self.x.abs().lt(s) && self.y.abs().lt(s) && self.z.abs().lt(s)
    }
}

impl std::ops::Neg for Vec3 {
    type Output = Vec3;

    fn neg(self) -> (r: Vec3) {
        Vec3 { x: self.x.neg(), y: self.y.neg(), z: self.z.neg() }
    }
}

impl vstd::std_specs::ops::NegSpecImpl for Vec3 {
    open spec fn obeys_neg_spec() -> bool {
        true
    }

    open spec fn neg_req(self) -> bool {
        true
    }

    open spec fn neg_spec(self) -> Vec3 {
        self.spec_neg()
    }
}

impl Default for Vec3 {
    fn default() -> (r: Vec3)
        ensures
            r == Vec3::spec_zeros(),
    {
        Vec3::zeros()
    }
}

} // verus!
