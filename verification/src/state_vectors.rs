//! Cartesian state vectors.
use crate::vector::Vec3;
use vstd::prelude::*;

verus! {

/// The state of a body: its position and velocity in an inertial frame
/// centred on the body it orbits.
#[derive(Clone, Copy, Debug, PartialEq, Eq, Structural)]
pub struct StateVectors {
    pub position: Vec3,
    pub velocity: Vec3,
}

impl StateVectors {
    /// Whether no component of the position or the velocity is an infinity
    /// or a NaN.
    pub open spec fn is_finite_spec(self) -> bool {
        self.position.is_finite_spec() && self.velocity.is_finite_spec()
    }

    /// A body at rest at the origin.
    pub open spec fn default_spec() -> StateVectors {
        StateVectors { position: Vec3::zero_spec(), velocity: Vec3::zero_spec() }
    }

    /// The state with the given position and velocity.
    pub fn new(position: Vec3, velocity: Vec3) -> (r: StateVectors)
        ensures
            r == (StateVectors { position, velocity }),
    {
        StateVectors { position, velocity }
    }

    /// Whether no component of the position or the velocity is an infinity
    /// or a NaN.
    #[verifier::when_used_as_spec(is_finite_spec)]
    pub fn is_finite(self) -> (r: bool)
        ensures
            r == self.is_finite_spec(),
    {
        self.position.is_finite() && self.velocity.is_finite()
    }
}

impl Default for StateVectors {
    /// A body at rest at the origin.
    fn default() -> (r: StateVectors)
        ensures
            r == StateVectors::default_spec(),
    {
        StateVectors { position: Vec3::default(), velocity: Vec3::default() }
    }
}

} // verus!
