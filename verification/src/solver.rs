//! Control of an iterative root search.
//!
//! Kepler's equation and the shape of a tangential transfer are both solved
//! by refining an estimate step by step. The arithmetic of a step is the
//! caller's; whether to go on, and when the search has settled or failed, is
//! decided here.

use crate::scalar::{lemma_ordinal_orders, Scalar, INFINITY_BITS, NEGATIVE_INFINITY_BITS};
use vstd::prelude::*;

verus! {

/// Iterations granted to a search unless the caller says otherwise.
pub const DEFAULT_ITERATION_BUDGET: u32 = 50;

/// How far a search has come.
#[derive(Clone, Copy, Debug, PartialEq, Eq, Structural)]
pub enum SearchStatus {
    /// The estimate is still being refined.
    Searching,
    /// The residual at the estimate is within the tolerance.
    Converged,
    /// The budget is spent and the residual is still too large.
    Exhausted,
    /// A residual or a proposed estimate was an infinity or a NaN.
    NonFinite,
}

/// A search for a root of a function of one variable, within an interval and
/// a budget of iterations.
#[derive(Clone, Copy, Debug, PartialEq, Eq, Structural)]
pub struct RootSearch {
    /// The current estimate of the root.
    pub estimate: Scalar,
    /// The least estimate allowed.
    pub lower: Scalar,
    /// The greatest estimate allowed.
    pub upper: Scalar,
    /// The largest absolute residual that counts as zero.
    pub tolerance: Scalar,
    /// Refinements made so far.
    pub iterations: u32,
    /// Refinements allowed in all.
    pub budget: u32,
    pub status: SearchStatus,
}

impl RootSearch {
    /// The search as it starts: at `seed` held to `[lower, upper]`, with no
    /// refinement made.
    pub open spec fn started(
        seed: Scalar,
        lower: Scalar,
        upper: Scalar,
        tolerance: Scalar,
        budget: u32,
    ) -> RootSearch {
        RootSearch {
            estimate: seed.clamp(lower, upper),
            lower,
            upper,
            tolerance,
            iterations: 0,
            budget,
            status: SearchStatus::Searching,
        }
    }

    /// The search after one step, given the residual of the function at the
    /// current estimate and the estimate proposed next.
    ///
    /// A finished search stays as it is. Otherwise the search has converged
    /// if the residual is within the tolerance; it fails if the residual or
    /// the proposal is not finite, or if the budget is spent; and else it
    /// moves to the proposal, held to the interval.
    pub open spec fn refined(self, residual: Scalar, proposal: Scalar) -> RootSearch {
        if self.status != SearchStatus::Searching {
            self
        } else if residual.abs().le(self.tolerance) {
            RootSearch { status: SearchStatus::Converged, ..self }
        } else if !residual.is_finite() || !proposal.is_finite() {
            RootSearch { status: SearchStatus::NonFinite, ..self }
        } else if self.iterations >= self.budget {
            RootSearch { status: SearchStatus::Exhausted, ..self }
        } else {
            RootSearch {
                estimate: proposal.clamp(self.lower, self.upper),
                iterations: (self.iterations + 1) as u32,
                ..self
            }
        }
    }

    /// An upper bound on the steps that the search can still take before it
    /// has finished.
    pub open spec fn steps_left(self) -> nat {
        if self.status != SearchStatus::Searching {
            0
        } else if self.iterations >= self.budget {
            1
        } else {
            (self.budget - self.iterations + 1) as nat
        }
    }

    /// Whether the estimate lies in the interval of the search.
    pub open spec fn in_bounds(self) -> bool {
        self.lower.le(self.estimate) && self.estimate.le(self.upper)
    }

    /// The root found, once the search has converged.
    pub open spec fn root_spec(&self) -> Option<Scalar> {
        if self.status == SearchStatus::Converged {
            Some(self.estimate)
        } else {
            None
        }
    }

    /// Starts a search at `seed` over all numbers.
    pub fn new(seed: Scalar, tolerance: Scalar, budget: u32) -> (r: RootSearch)
        ensures
            r == RootSearch::started(
                seed,
                Scalar { bits: NEGATIVE_INFINITY_BITS },
                Scalar { bits: INFINITY_BITS },
                tolerance,
                budget,
            ),
            seed.is_finite() ==> r.estimate == seed,
    {
        let lower = Scalar::from_bits(NEGATIVE_INFINITY_BITS);
        let upper = Scalar::from_bits(INFINITY_BITS);
        proof {
            lemma_ordinal_orders(seed, lower);
            lemma_ordinal_orders(upper, seed);
        }
        RootSearch::bounded(seed, lower, upper, tolerance, budget)
    }

    /// Starts a search at `seed` over `[lower, upper]`. A seed outside the
    /// interval is moved to its nearer end.
    pub fn bounded(seed: Scalar, lower: Scalar, upper: Scalar, tolerance: Scalar, budget: u32) -> (r:
        RootSearch)
        ensures
            r == RootSearch::started(seed, lower, upper, tolerance, budget),
            lower.le(upper) ==> r.in_bounds(),
    {
        RootSearch {
            estimate: seed.clamp(lower, upper),
            lower,
            upper,
            tolerance,
            iterations: 0,
            budget,
            status: SearchStatus::Searching,
        }
    }

    /// Takes one step of the search: `residual` is the value of the function
    /// at the current estimate, `proposal` the estimate that the caller's
    /// method derives from it. Returns the status after the step.
    ///
    /// The search converges only on a residual within the tolerance; every
    /// step of an unfinished search uses up one of its remaining steps, so it
    /// finishes within `budget + 1` steps; and an estimate that was within
    /// the interval stays within it.
    pub fn refine(&mut self, residual: Scalar, proposal: Scalar) -> (status: SearchStatus)
        ensures
            *final(self) == old(self).refined(residual, proposal),
            status == final(self).status,
            old(self).status == SearchStatus::Searching ==> final(self).steps_left() < old(
                self,
            ).steps_left(),
            old(self).status == SearchStatus::Searching && status == SearchStatus::Converged
                ==> residual.abs().le(old(self).tolerance) && final(self).estimate == old(
                self,
            ).estimate,
            old(self).lower.le(old(self).upper) && old(self).in_bounds() ==> final(self).in_bounds(),
    {
        if self.status != SearchStatus::Searching {
            return self.status;
        }
        if residual.abs().le(self.tolerance) {
            self.status = SearchStatus::Converged;
        } else if !residual.is_finite() || !proposal.is_finite() {
            self.status = SearchStatus::NonFinite;
        } else if self.iterations >= self.budget {
            self.status = SearchStatus::Exhausted;
        } else {
            self.estimate = proposal.clamp(self.lower, self.upper);
            self.iterations = self.iterations + 1;
        }
        self.status
    }

    /// The root, if the search has converged.
    #[verifier::when_used_as_spec(root_spec)]
    pub fn root(&self) -> (r: Option<Scalar>)
        ensures
            r == self.root_spec(),
    {
        if self.status == SearchStatus::Converged {
            Some(self.estimate)
        } else {
            None
        }
    }
}

/// The search after one step for each pair of residual and proposal in
/// `steps`, in turn.
pub open spec fn refined_over(search: RootSearch, steps: Seq<(Scalar, Scalar)>) -> RootSearch
    decreases steps.len(),
{
    if steps.len() == 0 {
        search
    } else {
        refined_over(search.refined(steps[0].0, steps[0].1), steps.drop_first())
    }
}

/// Whether `steps` is a run of `method` from `search` on: each pair is what
/// `method` returned for the estimate that the search had reached by then,
/// and the search was unfinished when it asked.
pub open spec fn is_run_of<F: Fn(Scalar) -> (Scalar, Scalar)>(
    method: F,
    search: RootSearch,
    steps: Seq<(Scalar, Scalar)>,
) -> bool
    decreases steps.len(),
{
    steps.len() == 0 || (search.status == SearchStatus::Searching && call_ensures(
        method,
        (search.estimate,),
        steps[0],
    ) && is_run_of(method, search.refined(steps[0].0, steps[0].1), steps.drop_first()))
}

/// Runs `search` to its end. `method` is asked, for each estimate that the
/// search reaches, for the residual there and for the estimate to try next.
///
/// The search returned is finished, and it is the given search refined by
/// the answers that `method` gave, in turn. It took no more steps than the
/// given search had left. If it has converged, `method` returned a residual
/// within the tolerance for the estimate that the search ended on. An
/// estimate that started within the interval ends within it.
pub fn run_search<F: Fn(Scalar) -> (Scalar, Scalar)>(search: RootSearch, method: F) -> (end:
    RootSearch)
    requires
        forall|estimate: Scalar| call_requires(method, (estimate,)),
    ensures
        end.status != SearchStatus::Searching,
        exists|steps: Seq<(Scalar, Scalar)>|
            #![trigger is_run_of(method, search, steps)]
            steps.len() <= search.steps_left() && is_run_of(method, search, steps) && end
                == refined_over(search, steps),
        search.status == SearchStatus::Searching && end.status == SearchStatus::Converged
            ==> exists|residual: Scalar, proposal: Scalar|
            #![trigger call_ensures(method, (end.estimate,), (residual, proposal))]
            call_ensures(method, (end.estimate,), (residual, proposal)) && residual.abs().le(
                end.tolerance,
            ),
        search.lower.le(search.upper) && search.in_bounds() ==> end.in_bounds(),
        end.lower == search.lower && end.upper == search.upper && end.tolerance == search.tolerance
            && end.budget == search.budget,
{
    let mut current = search;
    let ghost mut steps: Seq<(Scalar, Scalar)> = Seq::empty();
    while current.status == SearchStatus::Searching
        invariant
            forall|estimate: Scalar| call_requires(method, (estimate,)),
            is_run_of(method, search, steps),
            current == refined_over(search, steps),
            steps.len() + current.steps_left() <= search.steps_left(),
            search.lower.le(search.upper) && search.in_bounds() ==> current.in_bounds(),
            current.lower == search.lower && current.upper == search.upper && current.tolerance
                == search.tolerance && current.budget == search.budget,
            search.status != SearchStatus::Searching ==> current == search,
            search.status == SearchStatus::Searching && current.status == SearchStatus::Converged
                ==> exists|residual: Scalar, proposal: Scalar|
                #![trigger call_ensures(method, (current.estimate,), (residual, proposal))]
                call_ensures(method, (current.estimate,), (residual, proposal))
                    && residual.abs().le(current.tolerance),
        decreases current.steps_left(),
    {
        let (residual, proposal) = method(current.estimate);
        proof {
            lemma_run_extends(method, search, steps, (residual, proposal));
            steps = steps.push((residual, proposal));
        }
        current.refine(residual, proposal);
        assert(current.status == SearchStatus::Converged ==> call_ensures(
            method,
            (current.estimate,),
            (residual, proposal),
        ) && residual.abs().le(current.tolerance));
    }
    current
}

/// A run goes on by one step: what `method` returns for the estimate at the
/// end of a run, while the search is unfinished there, makes a longer run.
pub proof fn lemma_run_extends<F: Fn(Scalar) -> (Scalar, Scalar)>(
    method: F,
    search: RootSearch,
    steps: Seq<(Scalar, Scalar)>,
    next: (Scalar, Scalar),
)
    requires
        is_run_of(method, search, steps),
        refined_over(search, steps).status == SearchStatus::Searching,
        call_ensures(method, (refined_over(search, steps).estimate,), next),
    ensures
        is_run_of(method, search, steps.push(next)),
        refined_over(search, steps.push(next)) == refined_over(search, steps).refined(next.0, next.1),
    decreases steps.len(),
{
    let longer = steps.push(next);
    if steps.len() == 0 {
        assert(longer[0] == next);
        assert(longer.drop_first() == Seq::<(Scalar, Scalar)>::empty());
        assert(refined_over(search.refined(next.0, next.1), longer.drop_first()) == search.refined(
            next.0,
            next.1,
        ));
        assert(is_run_of(method, search.refined(next.0, next.1), longer.drop_first()));
    } else {
        let after = search.refined(steps[0].0, steps[0].1);
        lemma_run_extends(method, after, steps.drop_first(), next);
        assert(longer[0] == steps[0]);
        assert(longer.drop_first() == steps.drop_first().push(next));
    }
}

/// A search always finishes: whatever the residuals and proposals, it is no
/// longer searching once it has taken as many steps as it had left.
pub proof fn lemma_search_finishes(search: RootSearch, steps: Seq<(Scalar, Scalar)>)
    requires
        steps.len() >= search.steps_left(),
    ensures
        refined_over(search, steps).status != SearchStatus::Searching,
    decreases steps.len(),
{
    if steps.len() > 0 {
        let next = search.refined(steps[0].0, steps[0].1);
        assert(search.status == SearchStatus::Searching ==> next.steps_left() < search.steps_left());
        lemma_search_finishes(next, steps.drop_first());
    }
}

} // verus!
