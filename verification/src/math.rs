//! The Newton-Raphson iteration.
//!
//! A root is approached by repeating `x' = x - f(x) / f'(x)` until one
//! update moves the estimate by less than the tolerance. The rounded
//! arithmetic of an update belongs to the caller, who hands it in as one
//! closure from an estimate to a [`Step`]; the iteration itself, its stopping
//! rule and its iteration cap are this module's, and are stated over the
//! closure's own contract.
use crate::num::Num;
use vstd::prelude::*;

verus! {

/// The iteration cap of the anomaly solvers.
pub const MAX_STEPS: usize = 100_000;

/// One Newton update: the next estimate, and how far it lies from the
/// estimate it was computed from (`|next - x|`).
#[derive(Clone, Copy, Debug, PartialEq, Eq, Structural)]
pub struct Step {
    pub next: Num,
    pub error: Num,
}

/// An iteration gave up: `steps` updates from `x0` were made, none of them
/// moved the estimate by less than the tolerance, and `x` is where it stood.
#[derive(Clone, Copy, Debug, PartialEq, Eq, Structural)]
pub struct ConvergenceFailure {
    pub steps: usize,
    pub x0: Num,
    pub x: Num,
}

/// What one update means for the iteration.
#[derive(Clone, Copy, Debug, PartialEq, Eq, Structural)]
pub enum Progress {
    /// The update moved by less than the tolerance: its estimate is the root.
    Converged(Num),
    /// The update moved further: iterate again from its estimate.
    Continue(Num),
}

impl Step {
    /// An update ends the iteration exactly when its error is below the
    /// tolerance, as IEEE-754 orders them (a NaN on either side never is).
    pub open spec fn converged(self, epsilon: Num) -> bool {
        self.error.less_than(epsilon)
    }

    /// Applies the stopping rule to one update.
    pub fn judge(self, epsilon: Num) -> (r: Progress)
        ensures
            r == (if self.converged(epsilon) {
                Progress::Converged(self.next)
            } else {
                Progress::Continue(self.next)
            }),
    {
        if self.error.lt(epsilon) {
            Progress::Converged(self.next)
        } else {
            Progress::Continue(self.next)
        }
    }
}

/// The estimate that update number `i` of a run starts from.
pub open spec fn estimate_before(x0: Num, run: Seq<Step>, i: int) -> Num {
    if i == 0 {
        x0
    } else {
        run[i - 1].next
    }
}

/// `run` is a run of `update` from `x0`: each step is what `update` may
/// return on the estimate that the step before it produced.
pub open spec fn is_run<F: Fn(Num) -> Step>(update: F, x0: Num, run: Seq<Step>) -> bool {
    forall|i: int|
        0 <= i < run.len() ==> call_ensures(update, (estimate_before(x0, run, i),), #[trigger] run[i])
}

/// No step among the first `n` of `run` met the stopping rule.
pub open spec fn none_converged(run: Seq<Step>, epsilon: Num, n: int) -> bool {
    forall|i: int| 0 <= i < n ==> !(#[trigger] run[i]).converged(epsilon)
}

/// `run` ends the iteration with its last step and not before.
pub open spec fn stops_at_end(run: Seq<Step>, epsilon: Num) -> bool {
    &&& run.len() >= 1
    &&& none_converged(run, epsilon, run.len() - 1)
    &&& run.last().converged(epsilon)
}

/// `update` returns one value for each estimate.
pub open spec fn is_deterministic<F: Fn(Num) -> Step>(update: F) -> bool {
    forall|x: Num, s: Step, t: Step|
        call_ensures(update, (x,), s) && call_ensures(update, (x,), t) ==> s == t
}

/// What the iteration owes for a given outcome: a run of `update` from `x0`
/// that either stops with its last step, within the cap, and yields that
/// step's estimate; or fills the cap without stopping, and is reported with
/// the estimate it reached.
pub open spec fn newton_outcome<F: Fn(Num) -> Step>(
    update: F,
    x0: Num,
    epsilon: Num,
    max_steps: usize,
    run: Seq<Step>,
    r: Result<Num, ConvergenceFailure>,
) -> bool {
    &&& is_run(update, x0, run)
    &&& match r {
        Ok(x) => {
            &&& run.len() <= max_steps
            &&& stops_at_end(run, epsilon)
            &&& x == run.last().next
        },
        Err(failure) => {
            &&& run.len() == max_steps
            &&& none_converged(run, epsilon, run.len() as int)
            &&& failure == (ConvergenceFailure {
                steps: max_steps,
                x0,
                x: estimate_before(x0, run, run.len() as int),
            })
        },
    }
}

/// Iterates `update` from `x0` until a step moves by less than `epsilon`,
/// making at most `max_steps` updates.
///
/// Returns the estimate of the first step that meets the stopping rule. If
/// `max_steps` updates pass without one, the iteration fails: no partially
/// converged estimate is ever returned as a root.
pub fn newton_iterate<F: Fn(Num) -> Step>(
    update: F,
    x0: Num,
    epsilon: Num,
    max_steps: usize,
) -> (r: Result<Num, ConvergenceFailure>)
    requires
        forall|x: Num| call_requires(update, (x,)),
    ensures
        exists|run: Seq<Step>| newton_outcome(update, x0, epsilon, max_steps, run, r),
{
    let mut x: Num = x0;
    let mut done: usize = 0;
    let ghost mut run: Seq<Step> = Seq::empty();
    while done < max_steps
        invariant
            forall|x: Num| call_requires(update, (x,)),
            done <= max_steps,
            run.len() == done,
            is_run(update, x0, run),
            none_converged(run, epsilon, run.len() as int),
            x == estimate_before(x0, run, run.len() as int),
        decreases max_steps - done,
    {
        let step: Step = update(x);
        proof {
            let before = run;
            run = run.push(step);
            assert forall|i: int| 0 <= i < run.len() implies call_ensures(
                update,
                (estimate_before(x0, run, i),),
                #[trigger] run[i],
            ) by {
                if i < before.len() {
                    assert(run[i] == before[i]);
                    assert(estimate_before(x0, run, i) == estimate_before(x0, before, i));
                }
            }
            assert forall|i: int| 0 <= i < run.len() - 1 implies !(#[trigger] run[i]).converged(
                epsilon,
            ) by {
                assert(run[i] == before[i]);
            }
        }
        match step.judge(epsilon) {
            Progress::Converged(root) => {
                proof {
                    assert(newton_outcome(update, x0, epsilon, max_steps, run, Ok(root)));
                }
                return Ok(root);
            },
            Progress::Continue(next) => {
                x = next;
                done = done + 1;
            },
        }
    }
    let failure = ConvergenceFailure { steps: max_steps, x0, x };
    proof {
        assert(newton_outcome(update, x0, epsilon, max_steps, run, Err(failure)));
    }
    Err(failure)
}

/// The root solver of the anomaly models: [`newton_iterate`] under the cap
/// [`MAX_STEPS`].
pub fn newton_approx<F: Fn(Num) -> Step>(
    update: F,
    x0: Num,
    epsilon: Num,
) -> (r: Result<Num, ConvergenceFailure>)
    requires
        forall|x: Num| call_requires(update, (x,)),
    ensures
        exists|run: Seq<Step>| newton_outcome(update, x0, epsilon, MAX_STEPS, run, r),
{
    newton_iterate(update, x0, epsilon, MAX_STEPS)
}

/// Two runs of a deterministic update from one starting estimate hold the
/// same step wherever both have one.
pub proof fn lemma_runs_agree<F: Fn(Num) -> Step>(
    update: F,
    x0: Num,
    a: Seq<Step>,
    b: Seq<Step>,
    i: int,
)
    requires
        is_deterministic(update),
        is_run(update, x0, a),
        is_run(update, x0, b),
        0 <= i < a.len(),
        i < b.len(),
    ensures
        a[i] == b[i],
        estimate_before(x0, a, i + 1) == estimate_before(x0, b, i + 1),
    decreases i,
{
    if i > 0 {
        lemma_runs_agree(update, x0, a, b, i - 1);
    }
    assert(call_ensures(update, (estimate_before(x0, a, i),), a[i]));
    assert(call_ensures(update, (estimate_before(x0, b, i),), b[i]));
}

/// The iteration is a function of its inputs: with an update that returns one
/// value for each estimate, whatever two calls on the same starting estimate,
/// tolerance and cap return is the same root, or the same failure.
pub proof fn lemma_newton_outcome_unique<F: Fn(Num) -> Step>(
    update: F,
    x0: Num,
    epsilon: Num,
    max_steps: usize,
    run1: Seq<Step>,
    r1: Result<Num, ConvergenceFailure>,
    run2: Seq<Step>,
    r2: Result<Num, ConvergenceFailure>,
)
    requires
        is_deterministic(update),
        newton_outcome(update, x0, epsilon, max_steps, run1, r1),
        newton_outcome(update, x0, epsilon, max_steps, run2, r2),
    ensures
        r1 == r2,
        run1 == run2,
{
    let n1 = run1.len() as int;
    lemma_run_not_shorter(update, x0, epsilon, max_steps, run1, r1, run2, r2);
    lemma_run_not_shorter(update, x0, epsilon, max_steps, run2, r2, run1, r1);
    assert forall|i: int| 0 <= i < n1 implies run1[i] == run2[i] by {
        lemma_runs_agree(update, x0, run1, run2, i);
    }
    assert(run1 =~= run2);
}

proof fn lemma_run_not_shorter<F: Fn(Num) -> Step>(
    update: F,
    x0: Num,
    epsilon: Num,
    max_steps: usize,
    a: Seq<Step>,
    ra: Result<Num, ConvergenceFailure>,
    b: Seq<Step>,
    rb: Result<Num, ConvergenceFailure>,
)
    requires
        is_deterministic(update),
        newton_outcome(update, x0, epsilon, max_steps, a, ra),
        newton_outcome(update, x0, epsilon, max_steps, b, rb),
    ensures
        a.len() >= b.len(),
{
    if a.len() < b.len() {
        // A run that did not fill the cap stopped with its last step, and
        // the longer run holds that same step before its own last one.
        let n = a.len() as int;
        assert(ra is Ok);
        lemma_runs_agree(update, x0, a, b, n - 1);
        assert(a.last() == b[n - 1]);
        assert(!b[n - 1].converged(epsilon));
    }
}

/// The tolerance must be positive to be of use: against a tolerance that is
/// zero, negative or not a number, no update whose error is an absolute
/// value ever ends the iteration.
pub proof fn lemma_unusable_tolerance(step: Step, epsilon: Num)
    requires
        epsilon.is_nan_spec() || epsilon.at_most(Num::zero_spec()),
        !step.error.is_negative_spec(),
    ensures
        !step.converged(epsilon),
{
}

/// The cap bounds the work: a root is found within `max_steps` updates or
/// not at all, and with a cap of zero the iteration fails where it started.
pub proof fn lemma_newton_within_cap<F: Fn(Num) -> Step>(
    update: F,
    x0: Num,
    epsilon: Num,
    max_steps: usize,
    run: Seq<Step>,
    r: Result<Num, ConvergenceFailure>,
)
    requires
        newton_outcome(update, x0, epsilon, max_steps, run, r),
    ensures
        run.len() <= max_steps,
        r is Ok ==> 1 <= run.len(),
        max_steps == 0 ==> r == Err::<Num, ConvergenceFailure>(
            ConvergenceFailure { steps: 0, x0, x: x0 },
        ),
{
}

} // verus!
