//! The universal-variable propagator: its branches, its cap and its
//! failure policy.
//!
//! A state vector is advanced in time by solving for the universal anomaly
//! with Newton's method and evaluating the Lagrange coefficients at the
//! root. One formulation serves every orbit; what depends on the orbit is
//! the closed form that seeds the iteration and the series by which the
//! Stumpff coefficients are evaluated, both selected here. The arithmetic of
//! an update and of the final state is the caller's, handed in as closures.
use crate::math::is_deterministic;
use crate::math::lemma_newton_outcome_unique;
use crate::math::newton_iterate;
use crate::math::newton_outcome;
use crate::math::ConvergenceFailure;
use crate::math::Step;
use crate::num::Num;
use crate::state_vectors::StateVectors;
use vstd::prelude::*;

verus! {

/// The iteration cap of the propagator's Newton loop.
pub const PROPAGATOR_MAX_STEPS: usize = 500;

/// Why a propagation returned no state.
#[derive(Clone, Copy, Debug, PartialEq, Eq, Structural)]
pub enum PropagationFailure {
    /// The Newton loop on the universal anomaly filled its cap.
    ConvergenceFailure(ConvergenceFailure),
    /// The propagated state holds an infinity or a NaN.
    NumericOverflow,
}

/// Where a quantity lies with respect to a band of half-width `epsilon`
/// about zero.
#[derive(Clone, Copy, Debug, PartialEq, Eq, Structural)]
pub enum Band {
    /// Below `-epsilon`.
    Below,
    /// Neither above nor below: within the band, or not a number.
    Within,
    /// Above `epsilon`.
    Above,
}

/// The closed form that seeds the universal anomaly, by the reciprocal
/// semi-major axis `alpha`.
#[derive(Clone, Copy, Debug, PartialEq, Eq, Structural)]
pub enum Regime {
    /// `alpha` clearly positive: the elliptic seed.
    Elliptic,
    /// `alpha` near zero: the seed from Barker's equation.
    Parabolic,
    /// `alpha` clearly negative: the logarithmic seed.
    Hyperbolic,
}

/// The form in which the Stumpff coefficients are evaluated at `psi`.
#[derive(Clone, Copy, Debug, PartialEq, Eq, Structural)]
pub enum Stumpff {
    /// `psi` above the band: circular functions of the root of `psi`.
    Circular,
    /// `psi` within the band: the limit values, one half and one sixth.
    Limit,
    /// `psi` below the band: hyperbolic functions of the root of `-psi`.
    Hyperbolic,
}

/// The band in which `value` lies.
pub open spec fn band_spec(value: Num, epsilon: Num) -> Band {
    if epsilon.less_than(value) {
        Band::Above
    } else if value.less_than(epsilon.neg_spec()) {
        Band::Below
    } else {
        Band::Within
    }
}

/// The seed to use for a reciprocal semi-major axis `alpha`.
pub open spec fn regime_spec(alpha: Num, epsilon: Num) -> Regime {
    match band_spec(alpha, epsilon) {
        Band::Above => Regime::Elliptic,
        Band::Within => Regime::Parabolic,
        Band::Below => Regime::Hyperbolic,
    }
}

/// The evaluation to use for the Stumpff coefficients at `psi`.
pub open spec fn stumpff_spec(psi: Num, epsilon: Num) -> Stumpff {
    match band_spec(psi, epsilon) {
        Band::Above => Stumpff::Circular,
        Band::Within => Stumpff::Limit,
        Band::Below => Stumpff::Hyperbolic,
    }
}

/// A propagated state is returned only if it is finite.
pub open spec fn conclude_spec(state: StateVectors) -> Result<StateVectors, PropagationFailure> {
    if state.is_finite_spec() {
        Ok(state)
    } else {
        Err(PropagationFailure::NumericOverflow)
    }
}

/// Places `value` with respect to the band of half-width `epsilon`.
#[verifier::when_used_as_spec(band_spec)]
pub fn band(value: Num, epsilon: Num) -> (r: Band)
    ensures
        r == band_spec(value, epsilon),
{
    if value.gt(epsilon) {
        Band::Above
    } else if value.lt(epsilon.neg()) {
        Band::Below
    } else {
        Band::Within
    }
}

/// Selects the seed of the universal anomaly.
#[verifier::when_used_as_spec(regime_spec)]
pub fn regime(alpha: Num, epsilon: Num) -> (r: Regime)
    ensures
        r == regime_spec(alpha, epsilon),
{
    match band(alpha, epsilon) {
        Band::Above => Regime::Elliptic,
        Band::Within => Regime::Parabolic,
        Band::Below => Regime::Hyperbolic,
    }
}

/// Selects the evaluation of the Stumpff coefficients.
#[verifier::when_used_as_spec(stumpff_spec)]
pub fn stumpff(psi: Num, epsilon: Num) -> (r: Stumpff)
    ensures
        r == stumpff_spec(psi, epsilon),
{
    match band(psi, epsilon) {
        Band::Above => Stumpff::Circular,
        Band::Within => Stumpff::Limit,
        Band::Below => Stumpff::Hyperbolic,
    }
}

/// Passes a propagated state on if it is finite, and reports an overflow
/// otherwise.
#[verifier::when_used_as_spec(conclude_spec)]
pub fn conclude(state: StateVectors) -> (r: Result<StateVectors, PropagationFailure>)
    ensures
        r == conclude_spec(state),
{
    if state.is_finite() {
        Ok(state)
    } else {
        Err(PropagationFailure::NumericOverflow)
    }
}

/// What a propagation owes: `solved` is what the Newton loop gives for
/// `update` from `x0` under the propagator's cap, by the run `run`. If it
/// failed, so does the propagation, with that failure. If it found a root,
/// `state` is what `lagrange` returns at the root, and the propagation's
/// result is `state`, checked.
pub open spec fn propagation_outcome<U: Fn(Num) -> Step, L: Fn(Num) -> StateVectors>(
    update: U,
    lagrange: L,
    x0: Num,
    tolerance: Num,
    run: Seq<Step>,
    solved: Result<Num, ConvergenceFailure>,
    state: StateVectors,
    r: Result<StateVectors, PropagationFailure>,
) -> bool {
    &&& newton_outcome(update, x0, tolerance, PROPAGATOR_MAX_STEPS, run, solved)
    &&& match solved {
        Ok(x) => call_ensures(lagrange, (x,), state) && r == conclude_spec(state),
        Err(failure) => r == Err::<StateVectors, PropagationFailure>(
            PropagationFailure::ConvergenceFailure(failure),
        ),
    }
}

/// Solves for the universal anomaly from the seed `x0` and evaluates the
/// new state at the root.
///
/// `update` is one Newton update of the universal anomaly, `lagrange` the
/// state that the Lagrange coefficients give at an anomaly. The loop makes
/// at most [`PROPAGATOR_MAX_STEPS`] updates; if none moves by less than
/// `tolerance`, the propagation fails and `lagrange` is never called. A
/// state with a component that is not finite is not returned.
pub fn propagate<U: Fn(Num) -> Step, L: Fn(Num) -> StateVectors>(
    update: U,
    lagrange: L,
    x0: Num,
    tolerance: Num,
) -> (r: Result<StateVectors, PropagationFailure>)
    requires
        forall|x: Num| call_requires(update, (x,)),
        forall|x: Num| call_requires(lagrange, (x,)),
    ensures
        exists|run: Seq<Step>, solved: Result<Num, ConvergenceFailure>, state: StateVectors|
            propagation_outcome(update, lagrange, x0, tolerance, run, solved, state, r),
{
    let solved = newton_iterate(&update, x0, tolerance, PROPAGATOR_MAX_STEPS);
    let ghost run = choose|run: Seq<Step>|
        newton_outcome(&update, x0, tolerance, PROPAGATOR_MAX_STEPS, run, solved);
    match solved {
        Ok(x) => {
            let state = lagrange(x);
            let r = conclude(state);
            proof {
                assert(propagation_outcome(update, lagrange, x0, tolerance, run, solved, state, r));
            }
            r
        },
        Err(failure) => {
            let r = Err(PropagationFailure::ConvergenceFailure(failure));
            proof {
                assert(propagation_outcome(
                    update,
                    lagrange,
                    x0,
                    tolerance,
                    run,
                    solved,
                    StateVectors::default_spec(),
                    r,
                ));
            }
            r
        },
    }
}

/// A propagation never hands out a corrupted state: whatever it returns as
/// a state is finite, and is what the Lagrange coefficients gave at a root
/// that the Newton loop found within its cap.
pub proof fn lemma_propagated_state_is_finite<U: Fn(Num) -> Step, L: Fn(Num) -> StateVectors>(
    update: U,
    lagrange: L,
    x0: Num,
    tolerance: Num,
    run: Seq<Step>,
    solved: Result<Num, ConvergenceFailure>,
    state: StateVectors,
    r: Result<StateVectors, PropagationFailure>,
)
    requires
        propagation_outcome(update, lagrange, x0, tolerance, run, solved, state, r),
    ensures
        r matches Ok(s) ==> s.is_finite_spec() && s == state && solved is Ok && 1 <= run.len()
            <= PROPAGATOR_MAX_STEPS,
        r matches Err(PropagationFailure::ConvergenceFailure(f)) ==> solved == Err::<
            Num,
            ConvergenceFailure,
        >(f) && f.steps == PROPAGATOR_MAX_STEPS,
        r matches Err(PropagationFailure::NumericOverflow) ==> solved is Ok
            && !state.is_finite_spec(),
{
}

/// A propagation is a function of its inputs: with closures that return one
/// value for each argument, whatever two calls on the same seed and
/// tolerance return is the same state, or the same failure.
pub proof fn lemma_propagation_outcome_unique<U: Fn(Num) -> Step, L: Fn(Num) -> StateVectors>(
    update: U,
    lagrange: L,
    x0: Num,
    tolerance: Num,
    run1: Seq<Step>,
    solved1: Result<Num, ConvergenceFailure>,
    state1: StateVectors,
    r1: Result<StateVectors, PropagationFailure>,
    run2: Seq<Step>,
    solved2: Result<Num, ConvergenceFailure>,
    state2: StateVectors,
    r2: Result<StateVectors, PropagationFailure>,
)
    requires
        is_deterministic(update),
        forall|x: Num, s: StateVectors, t: StateVectors|
            call_ensures(lagrange, (x,), s) && call_ensures(lagrange, (x,), t) ==> s == t,
        propagation_outcome(update, lagrange, x0, tolerance, run1, solved1, state1, r1),
        propagation_outcome(update, lagrange, x0, tolerance, run2, solved2, state2, r2),
    ensures
        r1 == r2,
{
    lemma_newton_outcome_unique(
        update,
        x0,
        tolerance,
        PROPAGATOR_MAX_STEPS,
        run1,
        solved1,
        run2,
        solved2,
    );
}

/// The three bands part the numbers. With a half-width that is a number and
/// not negative, a number is within the band exactly when its magnitude is
/// at most the half-width; so outside the band it is never zero, and the
/// forms that divide by `psi` are safe.
pub proof fn lemma_band(value: Num, epsilon: Num)
    requires
        !epsilon.is_nan_spec(),
        !epsilon.is_negative_spec(),
    ensures
        value.is_nan_spec() ==> band_spec(value, epsilon) == Band::Within,
        !value.is_nan_spec() ==> (band_spec(value, epsilon) == Band::Within <==> value.magnitude()
            <= epsilon.magnitude()),
        band_spec(value, epsilon) == Band::Above ==> value.units() > 0,
        band_spec(value, epsilon) == Band::Below ==> value.units() < 0,
{
    crate::num::lemma_constants();
    crate::num::lemma_magnitude_order(epsilon, value);
    crate::num::lemma_magnitude_order(value, epsilon);
    let m = epsilon.neg_spec();
    assert(m.magnitude_bits() == epsilon.magnitude_bits());
    assert(m.units() == -epsilon.units());
    assert(m.is_nan_spec() == epsilon.is_nan_spec());
}

/// The forms of the Stumpff coefficients that divide by `psi` are only
/// selected for a `psi` that is a number and not zero: positive for the
/// circular form, negative for the hyperbolic one.
pub proof fn lemma_stumpff_divides_safely(psi: Num, epsilon: Num)
    requires
        !epsilon.is_nan_spec(),
        !epsilon.is_negative_spec(),
    ensures
        stumpff_spec(psi, epsilon) == Stumpff::Circular ==> !psi.is_nan_spec() && psi.units() > 0,
        stumpff_spec(psi, epsilon) == Stumpff::Hyperbolic ==> !psi.is_nan_spec() && psi.units()
            < 0,
        psi.magnitude_bits() == 0 ==> stumpff_spec(psi, epsilon) == Stumpff::Limit,
{
    lemma_band(psi, epsilon);
    crate::num::lemma_magnitude_order(psi, epsilon);
}

} // verus!
