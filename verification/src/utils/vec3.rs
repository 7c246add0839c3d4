use crate::utils::scalar::Scalar;
use vstd::prelude::*;

verus! {

/// The pattern of 1e-8, the bound below which a component counts as zero.
pub const NEAR_ZERO_BITS: u64 = 0x3e45_798e_e230_8c3a;

/// Three scalars: a point, a direction or a colour.
#[derive(Clone, Copy, Debug)]
pub struct Vec3 {
    pub x: Scalar,
    pub y: Scalar,
    pub z: Scalar,
}

impl Vec3 {
    /// Whether every component is within 1e-8 of zero. A NaN component is not.
    pub open spec fn spec_near_zero(&self) -> bool {
        let bound = Scalar { bits: NEAR_ZERO_BITS };
        &&& self.x.spec_abs().spec_lt(bound)
        &&& self.y.spec_abs().spec_lt(bound)
        &&& self.z.spec_abs().spec_lt(bound)
    }

    /// The vector with every component's sign flipped.
    pub open spec fn spec_neg(self) -> Vec3 {
        Vec3 { x: self.x.spec_neg(), y: self.y.spec_neg(), z: self.z.spec_neg() }
    }

    /// The vector of the three components.
    pub fn new(x: Scalar, y: Scalar, z: Scalar) -> (r: Vec3)
        ensures
            r == (Vec3 { x, y, z }),
    {
        Vec3 { x, y, z }
    }

    /// Three draws from the unit interval, taken in the order x, y, z.
    pub fn new_random() -> (r: Vec3)
        ensures
            r.x.is_unit_draw(),
            r.y.is_unit_draw(),
            r.z.is_unit_draw(),
    {
        let x = Scalar::random();
        let y = Scalar::random();
        let z = Scalar::random();
        Vec3 { x, y, z }
    }

    /// The first component.
    pub fn x(&self) -> (r: Scalar)
        ensures
            r == self.x,
    {
        self.x
    }

    /// The second component.
    pub fn y(&self) -> (r: Scalar)
        ensures
            r == self.y,
    {
        self.y
    }

    /// The third component.
    pub fn z(&self) -> (r: Scalar)
        ensures
            r == self.z,
    {
        self.z
    }

    /// The opposite vector: each component with its sign flipped. This is
    /// what the unary minus computes.
    pub fn negated(&self) -> (r: Vec3)
        ensures
            r == self.spec_neg(),
    {
        Vec3 { x: self.x.negated(), y: self.y.negated(), z: self.z.negated() }
    }

    /// Whether the vector is too short to give a direction: every component
    /// has an absolute value below 1e-8.
    #[verifier::when_used_as_spec(spec_near_zero)]
    pub fn near_zero(&self) -> (r: bool)
        ensures
            r == self.spec_near_zero(),
    {
        let bound = Scalar::from_bits(NEAR_ZERO_BITS);
        self.x.abs().lt(bound) && self.y.abs().lt(bound) && self.z.abs().lt(bound)
    }
}

impl vstd::std_specs::ops::NegSpecImpl for Vec3 {
    open spec fn obeys_neg_spec() -> bool {
        true
    }

    open spec fn neg_req(self) -> bool {
        true
    }

    open spec fn neg_spec(self) -> Vec3 {
        self.spec_neg()
    }
}

impl core::ops::Neg for Vec3 {
    type Output = Vec3;

    /// The opposite vector: each component with its sign flipped.
    fn neg(self) -> (r: Vec3) {
        self.negated()
    }
}

} // verus!
