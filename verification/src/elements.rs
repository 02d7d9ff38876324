//! Keplerian orbital elements and the dispatch on orbit class.
use crate::num::lemma_constants;
use crate::num::Num;
use vstd::arithmetic::power2::pow2;
use vstd::prelude::*;

verus! {

/// The six classical elements of an orbit, and the epoch at which the mean
/// anomaly was taken. Angles are in radians.
#[derive(Clone, Copy, Debug, PartialEq, Eq, Structural)]
pub struct KeplerianElements {
    pub eccentricity: Num,
    pub semi_major_axis: Num,
    pub inclination: Num,
    pub right_ascension_of_the_ascending_node: Num,
    pub argument_of_periapsis: Num,
    pub mean_anomaly_at_epoch: Num,
    pub epoch: Num,
}

/// The model by which an orbit is evaluated.
#[derive(Clone, Copy, Debug, PartialEq, Eq, Structural)]
pub enum OrbitClass {
    /// Closed orbits, `e < 1`: Kepler's equation in its elliptic form.
    Elliptic,
    /// Open orbits, `e >= 1`: the hyperbolic form. The parabola, `e = 1`,
    /// has no model of its own and is taken with the hyperbolas.
    Hyperbolic,
}

/// The class of an orbit of eccentricity `e`: hyperbolic from `1` on,
/// elliptic otherwise. An eccentricity that is a NaN compares with nothing
/// and takes the elliptic model.
pub open spec fn orbit_class_spec(e: Num) -> OrbitClass {
    if Num::one_spec().at_most(e) {
        OrbitClass::Hyperbolic
    } else {
        OrbitClass::Elliptic
    }
}

/// Selects the model for an orbit of eccentricity `e`.
#[verifier::when_used_as_spec(orbit_class_spec)]
pub fn orbit_class(e: Num) -> (r: OrbitClass)
    ensures
        r == orbit_class_spec(e),
{
    if e.ge(Num::one()) {
        OrbitClass::Hyperbolic
    } else {
        OrbitClass::Elliptic
    }
}

impl KeplerianElements {
    /// `e < 1`.
    pub open spec fn is_elliptical_spec(&self) -> bool {
        self.eccentricity.less_than(Num::one_spec())
    }

    /// `e >= 1`.
    pub open spec fn is_hyperbolic_spec(&self) -> bool {
        Num::one_spec().at_most(self.eccentricity)
    }

    /// Whether the eccentricity is below one.
    #[verifier::when_used_as_spec(is_elliptical_spec)]
    pub fn is_elliptical(&self) -> (r: bool)
        ensures
            r == self.is_elliptical_spec(),
    {
        self.eccentricity.lt(Num::one())
    }

    /// Whether the eccentricity is one or more; the parabola counts as a
    /// hyperbola.
    #[verifier::when_used_as_spec(is_hyperbolic_spec)]
    pub fn is_hyperbolic(&self) -> (r: bool)
        ensures
            r == self.is_hyperbolic_spec(),
    {
        self.eccentricity.ge(Num::one())
    }

    /// The model by which these elements are evaluated.
    pub fn class(&self) -> (r: OrbitClass)
        ensures
            r == orbit_class_spec(self.eccentricity),
            (r == OrbitClass::Hyperbolic) == self.is_hyperbolic_spec(),
    {
        orbit_class(self.eccentricity)
    }
}

/// Every orbit whose eccentricity is a number is elliptical or hyperbolic
/// and not both, and the boundary is the number one: in units of `2^-1074`,
/// an orbit is hyperbolic exactly from `2^1074` on.
pub proof fn lemma_class_partition(el: KeplerianElements)
    ensures
        !(el.is_elliptical_spec() && el.is_hyperbolic_spec()),
        !el.eccentricity.is_nan_spec() ==> el.is_elliptical_spec() || el.is_hyperbolic_spec(),
        el.eccentricity.is_nan_spec() ==> !el.is_elliptical_spec() && !el.is_hyperbolic_spec(),
        !el.eccentricity.is_nan_spec() ==> (el.is_hyperbolic_spec() <==> el.eccentricity.units()
            >= pow2(1074)),
        (orbit_class_spec(el.eccentricity) == OrbitClass::Hyperbolic) == el.is_hyperbolic_spec(),
{
    lemma_constants();
}

} // verus!
