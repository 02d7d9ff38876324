//! Three-component vectors of encoded scalars.
use crate::num::Num;
use vstd::prelude::*;

verus! {

/// A vector in three dimensions, each component a binary64 encoding.
#[derive(Clone, Copy, Debug, PartialEq, Eq, Structural)]
pub struct Vec3 {
    pub x: Num,
    pub y: Num,
    pub z: Num,
}

/// The vector with the given components.
pub fn vec3(x: Num, y: Num, z: Num) -> (r: Vec3)
    ensures
        r == (Vec3 { x, y, z }),
{
    Vec3 { x, y, z }
}

impl Vec3 {
    /// Whether no component is an infinity or a NaN.
    pub open spec fn is_finite_spec(self) -> bool {
        self.x.is_finite_spec() && self.y.is_finite_spec() && self.z.is_finite_spec()
    }

    /// The squared length in units of `2^-2148`: the sum of the squares of
    /// the components' units. Meaningful for finite vectors.
    pub open spec fn squared_length_units(self) -> int {
        self.x.units() * self.x.units() + self.y.units() * self.y.units() + self.z.units()
            * self.z.units()
    }

    /// The zero vector.
    pub open spec fn zero_spec() -> Vec3 {
        Vec3 { x: Num::zero_spec(), y: Num::zero_spec(), z: Num::zero_spec() }
    }

    /// The vector with the given components.
    pub fn new(x: Num, y: Num, z: Num) -> (r: Vec3)
        ensures
            r == (Vec3 { x, y, z }),
    {
        Vec3 { x, y, z }
    }

    /// Whether no component is an infinity or a NaN.
    #[verifier::when_used_as_spec(is_finite_spec)]
    pub fn is_finite(self) -> (r: bool)
        ensures
            r == self.is_finite_spec(),
    {
        self.x.is_finite() && self.y.is_finite() && self.z.is_finite()
    }
}

impl Default for Vec3 {
    /// The zero vector.
    fn default() -> (r: Vec3)
        ensures
            r == Vec3::zero_spec(),
    {
        Vec3 { x: Num::zero(), y: Num::zero(), z: Num::zero() }
    }
}

} // verus!
