//! The decisions of the conversion from state vectors to elements.
//!
//! The angles of an orbit are inverse cosines, which give a principal value
//! between `0` and `pi`; which half of the circle an angle lies in is read
//! off the sign of a second quantity. Two configurations leave an angle
//! without meaning: in an equatorial orbit no node line exists, and in a
//! circular orbit no periapsis. Each is a tagged case with a fixed default:
//! the X axis stands in for the node line and the right ascension is zero;
//! the node line stands in for the periapsis direction and the argument of
//! periapsis is zero, so that the true anomaly is counted from the node
//! line.
use crate::elements::orbit_class;
use crate::elements::orbit_class_spec;
use crate::elements::OrbitClass;
use crate::num::Num;
use vstd::prelude::*;

verus! {

/// The encoding of pi, as binary64 rounds it.
pub const PI_BITS: u64 = 0x4009_21fb_5444_2d18;

/// The encoding of two pi, a full turn.
pub const TWO_PI_BITS: u64 = 0x4019_21fb_5444_2d18;

/// How an angle is obtained from the principal value of its inverse cosine.
#[derive(Clone, Copy, Debug, PartialEq, Eq, Structural)]
pub enum Fold {
    /// The angle is the principal value, in `[0, pi]`.
    Principal,
    /// The angle lies in the other half of the circle: two pi less the
    /// principal value.
    Reflected,
    /// The angle has no meaning in this configuration and is zero.
    Zero,
}

impl Fold {
    /// The angle, given the principal value and its reflection (two pi less
    /// the principal value, as the caller's arithmetic rounds it). A
    /// reflection that rounding brought up to the full turn is the angle
    /// zero: angles are kept below two pi.
    pub open spec fn unfold_spec(self, principal: Num, reflected: Num) -> Num {
        match self {
            Fold::Principal => principal,
            Fold::Reflected => if (Num { bits: TWO_PI_BITS }).at_most(reflected) {
                Num::zero_spec()
            } else {
                reflected
            },
            Fold::Zero => Num::zero_spec(),
        }
    }

    /// Selects the angle.
    #[verifier::when_used_as_spec(unfold_spec)]
    pub fn unfold(self, principal: Num, reflected: Num) -> (r: Num)
        ensures
            r == self.unfold_spec(principal, reflected),
    {
        match self {
            Fold::Principal => principal,
            Fold::Reflected => if reflected.ge(Num { bits: TWO_PI_BITS }) {
                Num::zero()
            } else {
                reflected
            },
            Fold::Zero => Num::zero(),
        }
    }
}

/// The scalars of a state vector on which the conversion's decisions rest.
/// Only the sign of the last six is read, so they may be taken from vectors
/// of any positive scale.
#[derive(Clone, Copy, Debug, PartialEq, Eq, Structural)]
pub struct Observables {
    /// The eccentricity, the length of the eccentricity vector.
    pub eccentricity: Num,
    /// The inclination.
    pub inclination: Num,
    /// The length of the node vector, `Z x h`.
    pub node_length: Num,
    /// The Y component of the node vector.
    pub node_y: Num,
    /// The Y component of the eccentricity vector.
    pub eccentricity_y: Num,
    /// The Z component of the eccentricity vector.
    pub eccentricity_z: Num,
    /// The Y component of the position.
    pub position_y: Num,
    /// The Z component of the position.
    pub position_z: Num,
    /// The scalar product of position and velocity: positive while the body
    /// recedes from the periapsis, negative while it approaches.
    pub radial_velocity: Num,
}

/// What the conversion does with a given state vector.
#[derive(Clone, Copy, Debug, PartialEq, Eq, Structural)]
pub struct Resolution {
    /// The model for the semi-major axis and the mean anomaly.
    pub class: OrbitClass,
    /// No node line: the X axis stands in for it.
    pub equatorial: bool,
    /// No periapsis: the node line stands in for its direction.
    pub circular: bool,
    /// The right ascension of the ascending node.
    pub right_ascension: Fold,
    /// The argument of periapsis.
    pub argument_of_periapsis: Fold,
    /// The true anomaly.
    pub true_anomaly: Fold,
}

/// The half of the circle of an angle whose second quantity is `side`:
/// reflected where `side` is below zero.
pub open spec fn fold_by_spec(side: Num) -> Fold {
    if side.is_negative_spec() {
        Fold::Reflected
    } else {
        Fold::Principal
    }
}

impl Observables {
    /// The orbit lies in the reference plane: the node vector or the
    /// inclination vanishes.
    pub open spec fn equatorial(self) -> bool {
        self.node_length.is_near_zero_spec() || self.inclination.is_near_zero_spec()
    }

    /// The orbit is a circle: the eccentricity vanishes.
    pub open spec fn circular(self) -> bool {
        self.eccentricity.is_near_zero_spec()
    }

    /// The component that tells on which side of the node line a vector of
    /// the orbital plane lies: its Z component, or its Y component when the
    /// orbit is equatorial and the node line is the X axis.
    pub open spec fn side_of_node_line(self, y: Num, z: Num) -> Num {
        if self.equatorial() {
            y
        } else {
            z
        }
    }

    /// The decisions of the conversion.
    pub open spec fn resolution(self) -> Resolution {
        Resolution {
            class: orbit_class_spec(self.eccentricity),
            equatorial: self.equatorial(),
            circular: self.circular(),
            right_ascension: if self.equatorial() {
                Fold::Zero
            } else {
                fold_by_spec(self.node_y)
            },
            argument_of_periapsis: if self.circular() {
                Fold::Zero
            } else {
                fold_by_spec(self.side_of_node_line(self.eccentricity_y, self.eccentricity_z))
            },
            true_anomaly: if self.circular() {
                fold_by_spec(self.side_of_node_line(self.position_y, self.position_z))
            } else {
                fold_by_spec(self.radial_velocity)
            },
        }
    }

    /// Decides how the elements are obtained from a state vector with these
    /// observables.
    pub fn resolve(&self) -> (r: Resolution)
        ensures
            r == self.resolution(),
    {
        let equatorial: bool = self.node_length.is_near_zero() || self.inclination.is_near_zero();
        let circular: bool = self.eccentricity.is_near_zero();
        let right_ascension: Fold = if equatorial {
            Fold::Zero
        } else {
            fold_by(self.node_y)
        };
        let argument_of_periapsis: Fold = if circular {
            Fold::Zero
        } else if equatorial {
            fold_by(self.eccentricity_y)
        } else {
            fold_by(self.eccentricity_z)
        };
        let true_anomaly: Fold = if !circular {
            fold_by(self.radial_velocity)
        } else if equatorial {
            fold_by(self.position_y)
        } else {
            fold_by(self.position_z)
        };
        Resolution {
            class: orbit_class(self.eccentricity),
            equatorial,
            circular,
            right_ascension,
            argument_of_periapsis,
            true_anomaly,
        }
    }
}

/// Picks the half of the circle by the sign of `side`.
#[verifier::when_used_as_spec(fold_by_spec)]
pub fn fold_by(side: Num) -> (r: Fold)
    ensures
        r == fold_by_spec(side),
{
    if side.is_negative() {
        Fold::Reflected
    } else {
        Fold::Principal
    }
}

/// The defaults of the degenerate configurations: the right ascension is
/// zero in exactly the equatorial orbits and the argument of periapsis in
/// exactly the circular ones, the true anomaly is never defaulted, and a
/// circle is never taken for a hyperbola.
pub proof fn lemma_degenerate_defaults(o: Observables)
    ensures
        (o.resolution().right_ascension == Fold::Zero) == o.equatorial(),
        (o.resolution().argument_of_periapsis == Fold::Zero) == o.circular(),
        o.resolution().true_anomaly != Fold::Zero,
        o.circular() ==> o.resolution().class == OrbitClass::Elliptic,
{
    crate::num::lemma_constants();
    if o.circular() {
        let e = o.eccentricity;
        vstd::arithmetic::power2::lemma_pow2_strictly_increases(1022, 1074);
        assert(e.abs_spec().magnitude_bits() == e.magnitude_bits());
        assert(e.abs_spec().units() == e.magnitude());
        assert(e.units() <= e.magnitude());
    }
}

/// Angles come out in `[0, 2 pi)`: whatever the fold, a principal value
/// between zero and pi and a reflection between pi and two pi give an angle
/// that is at least zero and below the full turn.
pub proof fn lemma_unfolded_angle_in_turn(fold: Fold, principal: Num, reflected: Num)
    requires
        Num::zero_spec().at_most(principal),
        principal.at_most(Num { bits: PI_BITS }),
        (Num { bits: PI_BITS }).at_most(reflected),
        reflected.at_most(Num { bits: TWO_PI_BITS }),
    ensures
        Num::zero_spec().at_most(fold.unfold_spec(principal, reflected)),
        fold.unfold_spec(principal, reflected).less_than(Num { bits: TWO_PI_BITS }),
        fold == Fold::Zero ==> fold.unfold_spec(principal, reflected) == Num::zero_spec(),
        fold == Fold::Principal ==> fold.unfold_spec(principal, reflected) == principal,
{
    let zero = Num::zero_spec();
    let pi = Num { bits: PI_BITS };
    let turn = Num { bits: TWO_PI_BITS };
    crate::num::lemma_magnitude_order(zero, pi);
    crate::num::lemma_magnitude_order(pi, turn);
    crate::num::lemma_magnitude_order(zero, turn);
    assert(zero.magnitude_bits() == 0);
    assert(pi.magnitude_bits() == 0x4009_21fb_5444_2d18);
    assert(turn.magnitude_bits() == 0x4019_21fb_5444_2d18);
}

/// Only signs decide: the scale of the vectors from which the side
/// quantities were taken does not. Two sets of observables that agree on
/// eccentricity, inclination and node length, and whose side quantities are
/// negative together, are resolved alike.
pub proof fn lemma_resolution_reads_signs(a: Observables, b: Observables)
    requires
        a.eccentricity == b.eccentricity,
        a.inclination == b.inclination,
        a.node_length == b.node_length,
        a.node_y.is_negative_spec() == b.node_y.is_negative_spec(),
        a.eccentricity_y.is_negative_spec() == b.eccentricity_y.is_negative_spec(),
        a.eccentricity_z.is_negative_spec() == b.eccentricity_z.is_negative_spec(),
        a.position_y.is_negative_spec() == b.position_y.is_negative_spec(),
        a.position_z.is_negative_spec() == b.position_z.is_negative_spec(),
        a.radial_velocity.is_negative_spec() == b.radial_velocity.is_negative_spec(),
    ensures
        a.resolution() == b.resolution(),
{
}

} // verus!
