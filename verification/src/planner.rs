//! Planning of two-impulse transfers between orbits about a common focus.
//!
//! A transfer is planned in two parts. The numbers of the transfer ellipse
//! (its elements, the arrival time and the phase on arrival) come from
//! rounding arithmetic and are handed in. This module chooses the method,
//! refuses inputs and numbers that describe no transfer that can be flown,
//! and builds the maneuvers.

use crate::orbit::{Orbit, OrbitError};
use crate::scalar::Scalar;
use crate::solver::{RootSearch, SearchStatus};
use crate::transfer::{in_execution_order, Maneuver, Transfer};
use std::collections::VecDeque;
use vstd::prelude::*;

verus! {

/// The method by which a transfer between two orbits is planned.
#[derive(Clone, Copy, Debug, PartialEq, Eq, Structural)]
pub enum TransferMethod {
    /// The closed-form Hohmann transfer between two circles.
    CircularHohmann,
    /// The tangential transfer, for when an orbit is eccentric.
    Tangential,
}

/// An end of the major axis of an ellipse.
#[derive(Clone, Copy, Debug, PartialEq, Eq, Structural)]
pub enum Apsis {
    /// The point nearest the focus.
    Periapsis,
    /// The point farthest from the focus.
    Apoapsis,
}

/// Why no transfer was planned.
#[derive(Clone, Copy, Debug, PartialEq, Eq, Structural)]
pub enum TransferError {
    /// The start orbit's elements describe no ellipse.
    InvalidStartOrbit(OrbitError),
    /// The target orbit's elements describe no ellipse.
    InvalidTargetOrbit(OrbitError),
    /// The parent's mass is not a finite number above zero.
    InvalidParentMass,
    /// The execution time is an infinity or a NaN.
    InvalidExecutionTime,
    /// The method for two circles was asked for and an orbit is eccentric.
    EccentricOrbit,
    /// The numbers were derived by another method than the orbits call for.
    MethodMismatch,
    /// The search for the shape of the transfer ellipse used up its budget.
    NotConverged,
    /// The numbers describe no transfer that can be flown: one of them is not
    /// finite or is out of its range, a denominator vanished, or the arrival
    /// would come before the departure.
    Infeasible,
}

/// The numbers of a two-impulse transfer that rounding arithmetic derives.
#[derive(Clone, Copy, Debug, PartialEq, Eq, Structural)]
pub struct TransferSolution {
    /// The ellipse flown between the two maneuvers.
    pub transfer_orbit: Orbit,
    /// The time at which the body reaches the target orbit.
    pub arrival_time: Scalar,
    /// The initial mean anomaly that puts the body, once on the target
    /// orbit, at its phase of arrival at the arrival time.
    pub target_initial_mean_anomaly: Scalar,
}

/// The numbers of a tangential transfer.
#[derive(Clone, Copy, Debug, PartialEq, Eq, Structural)]
pub struct TangentialSolution {
    /// The finished search for the shape parameter of the transfer ellipse.
    pub shape_search: RootSearch,
    /// The denominator from which the transfer's semi-major axis was derived.
    pub denominator: Scalar,
    pub solution: TransferSolution,
}

/// The numbers of a transfer, by the method that derived them.
#[derive(Clone, Copy, Debug, PartialEq, Eq, Structural)]
pub enum TransferNumbers {
    CircularHohmann(TransferSolution),
    Tangential(TangentialSolution),
}

/// The method for a pair of orbits: the closed form if both are circles, the
/// tangential transfer otherwise.
pub open spec fn method_for(start: Orbit, target: Orbit) -> TransferMethod {
    if start.is_circular() && target.is_circular() {
        TransferMethod::CircularHohmann
    } else {
        TransferMethod::Tangential
    }
}

/// The apsis of the transfer ellipse at which the body departs: the
/// periapsis when the transfer raises the orbit, the apoapsis otherwise.
pub open spec fn departure_apsis_for(start: Orbit, transfer_semi_major_axis: Scalar) -> Apsis {
    if start.semi_major_axis.lt(transfer_semi_major_axis) {
        Apsis::Periapsis
    } else {
        Apsis::Apoapsis
    }
}

/// The orbit on which the body arrives: the target's size and shape, its
/// periapsis on the reference direction, and the given phase.
pub open spec fn arrival_orbit(target: Orbit, initial_mean_anomaly: Scalar) -> Orbit {
    Orbit {
        semi_major_axis: target.semi_major_axis,
        eccentricity: target.eccentricity,
        argument_of_periapsis: Scalar::zero(),
        initial_mean_anomaly,
    }
}

/// The two maneuvers of a transfer: at `execution_time` from the start orbit
/// onto the transfer ellipse, and at the arrival time from the ellipse onto
/// the arrival orbit.
pub open spec fn two_impulses(
    start: Orbit,
    target: Orbit,
    execution_time: Scalar,
    solution: TransferSolution,
) -> Seq<Maneuver> {
    seq![
        Maneuver { start_orbit: start, target_orbit: solution.transfer_orbit, execution_time },
        Maneuver {
            start_orbit: solution.transfer_orbit,
            target_orbit: arrival_orbit(target, solution.target_initial_mean_anomaly),
            execution_time: solution.arrival_time,
        },
    ]
}

/// Whether `mass` can serve as a gravitational parameter: a finite number
/// above zero.
pub open spec fn is_attracting(mass: Scalar) -> bool {
    mass.is_finite() && Scalar::zero().lt(mass)
}

/// What is wrong with the orbits, the parent's mass or the execution time:
/// the first of them at fault, in this order, or nothing.
pub open spec fn input_fault(
    start: Orbit,
    target: Orbit,
    parent_mass: Scalar,
    execution_time: Scalar,
) -> Option<TransferError> {
    match (start.fault(), target.fault()) {
        (Some(e), _) => Some(TransferError::InvalidStartOrbit(e)),
        (None, Some(e)) => Some(TransferError::InvalidTargetOrbit(e)),
        (None, None) => if !is_attracting(parent_mass) {
            Some(TransferError::InvalidParentMass)
        } else if !execution_time.is_finite() {
            Some(TransferError::InvalidExecutionTime)
        } else {
            None
        },
    }
}

/// Whether the numbers describe a transfer that can be flown: the transfer
/// ellipse is a valid orbit, arrival time and arrival phase are finite, and
/// the body does not arrive before it departs.
pub open spec fn is_flyable(execution_time: Scalar, solution: TransferSolution) -> bool {
    &&& solution.transfer_orbit.is_valid()
    &&& solution.arrival_time.is_finite()
    &&& solution.target_initial_mean_anomaly.is_finite()
    &&& execution_time.le(solution.arrival_time)
}

/// Whether `x` lies between `a` and `b`, whichever of the two is larger.
pub open spec fn lies_between(x: Scalar, a: Scalar, b: Scalar) -> bool {
    (a.le(x) && x.le(b)) || (b.le(x) && x.le(a))
}

/// The first reason, if any, for which the method for two circles plans no
/// transfer: an input at fault, an eccentric orbit, or numbers that cannot
/// be flown or whose ellipse does not reach from one circle to the other.
pub open spec fn circular_fault(
    start: Orbit,
    target: Orbit,
    parent_mass: Scalar,
    execution_time: Scalar,
    solution: TransferSolution,
) -> Option<TransferError> {
    if input_fault(start, target, parent_mass, execution_time) is Some {
        input_fault(start, target, parent_mass, execution_time)
    } else if !start.is_circular() || !target.is_circular() {
        Some(TransferError::EccentricOrbit)
    } else if !is_flyable(execution_time, solution) || !lies_between(
        solution.transfer_orbit.semi_major_axis,
        start.semi_major_axis,
        target.semi_major_axis,
    ) {
        Some(TransferError::Infeasible)
    } else {
        None
    }
}

/// The first reason, if any, for which the tangential method plans no
/// transfer: an input at fault, a search for the shape parameter that has
/// not converged, or numbers that cannot be flown.
pub open spec fn tangential_fault(
    start: Orbit,
    target: Orbit,
    parent_mass: Scalar,
    execution_time: Scalar,
    numbers: TangentialSolution,
) -> Option<TransferError> {
    if input_fault(start, target, parent_mass, execution_time) is Some {
        input_fault(start, target, parent_mass, execution_time)
    } else if numbers.shape_search.status == SearchStatus::Searching
        || numbers.shape_search.status == SearchStatus::Exhausted {
        Some(TransferError::NotConverged)
    } else if numbers.shape_search.status == SearchStatus::NonFinite
        || !numbers.shape_search.estimate.is_finite() || !numbers.denominator.is_finite()
        || numbers.denominator.is_zero() || !is_flyable(execution_time, numbers.solution) {
        Some(TransferError::Infeasible)
    } else {
        None
    }
}

/// The first reason, if any, for which no transfer is planned from the
/// numbers given: that of the method which the orbits call for, or that the
/// numbers are the other method's.
pub open spec fn transfer_fault(
    start: Orbit,
    target: Orbit,
    parent_mass: Scalar,
    execution_time: Scalar,
    numbers: TransferNumbers,
) -> Option<TransferError> {
    match (method_for(start, target), numbers) {
        (TransferMethod::CircularHohmann, TransferNumbers::CircularHohmann(solution)) => circular_fault(
            start,
            target,
            parent_mass,
            execution_time,
            solution,
        ),
        (TransferMethod::Tangential, TransferNumbers::Tangential(tangential)) => tangential_fault(
            start,
            target,
            parent_mass,
            execution_time,
            tangential,
        ),
        _ => if input_fault(start, target, parent_mass, execution_time) is Some {
            input_fault(start, target, parent_mass, execution_time)
        } else {
            Some(TransferError::MethodMismatch)
        },
    }
}

/// The two-impulse part of the numbers, whichever method derived them.
pub open spec fn solution_of(numbers: TransferNumbers) -> TransferSolution {
    match numbers {
        TransferNumbers::CircularHohmann(solution) => solution,
        TransferNumbers::Tangential(tangential) => tangential.solution,
    }
}

/// The outcome of planning as a plain value: the maneuvers planned, or the
/// reason for which there are none.
pub open spec fn outcome_of(r: Result<Transfer, TransferError>) -> Result<Seq<Maneuver>, TransferError> {
    match r {
        Ok(transfer) => Ok(transfer@),
        Err(e) => Err(e),
    }
}

/// The outcome owed for given maneuvers and a possible fault: the fault if
/// there is one, the maneuvers otherwise.
pub open spec fn unless(fault: Option<TransferError>, maneuvers: Seq<Maneuver>) -> Result<
    Seq<Maneuver>,
    TransferError,
> {
    match fault {
        Some(e) => Err(e),
        None => Ok(maneuvers),
    }
}

/// The outcome of planning a transfer: a function of the orbits, the
/// parent's mass, the execution time and the numbers, and of nothing else.
pub open spec fn planned(
    start: Orbit,
    target: Orbit,
    parent_mass: Scalar,
    execution_time: Scalar,
    numbers: TransferNumbers,
) -> Result<Seq<Maneuver>, TransferError> {
    unless(
        transfer_fault(start, target, parent_mass, execution_time, numbers),
        two_impulses(start, target, execution_time, solution_of(numbers)),
    )
}

/// Chooses the planning method for a pair of orbits.
pub fn transfer_method(start_orbit: &Orbit, target_orbit: &Orbit) -> (method: TransferMethod)
    ensures
        method == method_for(*start_orbit, *target_orbit),
{
    if start_orbit.is_circular() && target_orbit.is_circular() {
        TransferMethod::CircularHohmann
    } else {
        TransferMethod::Tangential
    }
}

/// Chooses the apsis of the transfer ellipse at which the body departs.
pub fn departure_apsis(start_orbit: &Orbit, transfer_semi_major_axis: Scalar) -> (apsis: Apsis)
    ensures
        apsis == departure_apsis_for(*start_orbit, transfer_semi_major_axis),
{
    if start_orbit.semi_major_axis.lt(transfer_semi_major_axis) {
        Apsis::Periapsis
    } else {
        Apsis::Apoapsis
    }
}

fn check_inputs(
    start_orbit: &Orbit,
    target_orbit: &Orbit,
    parent_mass: Scalar,
    execution_time: Scalar,
) -> (r: Result<(), TransferError>)
    ensures
        r == match input_fault(*start_orbit, *target_orbit, parent_mass, execution_time) {
            Some(e) => Err::<(), TransferError>(e),
            None => Ok::<(), TransferError>(()),
        },
{
    match start_orbit.validate() {
        Err(e) => {
            return Err(TransferError::InvalidStartOrbit(e));
        },
        Ok(_) => {},
    }
    match target_orbit.validate() {
        Err(e) => {
            return Err(TransferError::InvalidTargetOrbit(e));
        },
        Ok(_) => {},
    }
    if !(parent_mass.is_finite() && Scalar::zero().lt(parent_mass)) {
        return Err(TransferError::InvalidParentMass);
    }
    if !execution_time.is_finite() {
        return Err(TransferError::InvalidExecutionTime);
    }
    Ok(())
}

fn check_flyable(execution_time: Scalar, solution: &TransferSolution) -> (r: bool)
    ensures
        r == is_flyable(execution_time, *solution),
{
    solution.transfer_orbit.is_valid() && solution.arrival_time.is_finite()
        && solution.target_initial_mean_anomaly.is_finite() && execution_time.le(
        solution.arrival_time,
    )
}

fn check_between(x: Scalar, a: Scalar, b: Scalar) -> (r: bool)
    ensures
        r == lies_between(x, a, b),
{
    (a.le(x) && x.le(b)) || (b.le(x) && x.le(a))
}

fn build_transfer(
    start_orbit: &Orbit,
    target_orbit: &Orbit,
    execution_time: Scalar,
    solution: &TransferSolution,
) -> (transfer: Transfer)
    requires
        execution_time.le(solution.arrival_time),
    ensures
        transfer@ == two_impulses(*start_orbit, *target_orbit, execution_time, *solution),
        transfer.is_ordered(),
{
    let arrival = Orbit {
        semi_major_axis: target_orbit.semi_major_axis,
        eccentricity: target_orbit.eccentricity,
        argument_of_periapsis: Scalar::zero(),
        initial_mean_anomaly: solution.target_initial_mean_anomaly,
    };
    let mut maneuvers: VecDeque<Maneuver> = VecDeque::new();
    maneuvers.push_back(
        Maneuver { start_orbit: *start_orbit, target_orbit: solution.transfer_orbit, execution_time },
    );
    maneuvers.push_back(
        Maneuver {
            start_orbit: solution.transfer_orbit,
            target_orbit: arrival,
            execution_time: solution.arrival_time,
        },
    );
    let transfer = Transfer { maneuvers };
    assert(transfer@ == two_impulses(*start_orbit, *target_orbit, execution_time, *solution));
    transfer
}

/// Plans the Hohmann transfer between two circular orbits from the numbers
/// of its transfer ellipse.
///
/// The transfer has two maneuvers: onto the transfer ellipse at
/// `execution_time`, and at the arrival time onto the target orbit, with the
/// periapsis on the reference direction and the phase of arrival. It is
/// refused unless both orbits are valid circles, the parent's mass is a
/// finite number above zero, the time is finite, the numbers can be flown,
/// and the semi-major axis of the ellipse lies between those of the two
/// circles.
pub fn common_focus_circular_to_circular_hohmann_transfer(
    start_orbit: &Orbit,
    target_orbit: &Orbit,
    parent_mass: Scalar,
    execution_time: Scalar,
    solution: &TransferSolution,
) -> (r: Result<Transfer, TransferError>)
    ensures
        outcome_of(r) == unless(
            circular_fault(*start_orbit, *target_orbit, parent_mass, execution_time, *solution),
            two_impulses(*start_orbit, *target_orbit, execution_time, *solution),
        ),
        r matches Ok(transfer) ==> transfer.is_ordered(),
{
    match check_inputs(start_orbit, target_orbit, parent_mass, execution_time) {
        Err(e) => {
            return Err(e);
        },
        Ok(_) => {},
    }
    if !start_orbit.is_circular() || !target_orbit.is_circular() {
        return Err(TransferError::EccentricOrbit);
    }
    if !check_flyable(execution_time, solution) || !check_between(
        solution.transfer_orbit.semi_major_axis,
        start_orbit.semi_major_axis,
        target_orbit.semi_major_axis,
    ) {
        return Err(TransferError::Infeasible);
    }
    Ok(build_transfer(start_orbit, target_orbit, execution_time, solution))
}

/// Plans the tangential transfer between two orbits from the numbers of its
/// transfer ellipse.
///
/// The maneuvers are those of the Hohmann transfer. The transfer is refused
/// unless both orbits are valid, the parent's mass is a finite number above
/// zero, the time is finite, the search for the shape parameter has
/// converged on a finite value, the denominator of the semi-major axis is
/// finite and not zero, and the numbers can be flown.
pub fn common_focus_tangential_hohmann_transfer(
    start_orbit: &Orbit,
    target_orbit: &Orbit,
    parent_mass: Scalar,
    execution_time: Scalar,
    numbers: &TangentialSolution,
) -> (r: Result<Transfer, TransferError>)
    ensures
        outcome_of(r) == unless(
            tangential_fault(*start_orbit, *target_orbit, parent_mass, execution_time, *numbers),
            two_impulses(*start_orbit, *target_orbit, execution_time, numbers.solution),
        ),
        r matches Ok(transfer) ==> transfer.is_ordered(),
{
    match check_inputs(start_orbit, target_orbit, parent_mass, execution_time) {
        Err(e) => {
            return Err(e);
        },
        Ok(_) => {},
    }
    match numbers.shape_search.status {
        SearchStatus::Searching | SearchStatus::Exhausted => {
            return Err(TransferError::NotConverged);
        },
        SearchStatus::NonFinite => {
            return Err(TransferError::Infeasible);
        },
        SearchStatus::Converged => {},
    }
    if !numbers.shape_search.estimate.is_finite() || !numbers.denominator.is_finite()
        || numbers.denominator.is_zero() || !check_flyable(execution_time, &numbers.solution) {
        return Err(TransferError::Infeasible);
    }
    Ok(build_transfer(start_orbit, target_orbit, execution_time, &numbers.solution))
}

/// Plans the transfer from `start_orbit` to `target_orbit` about a parent of
/// mass `parent_mass` that departs at `execution_time`, by the method that
/// the orbits call for: the Hohmann transfer if both are circles, the
/// tangential transfer otherwise. Numbers derived by the other method are
/// refused.
pub fn calculate_transfer(
    start_orbit: &Orbit,
    target_orbit: &Orbit,
    parent_mass: Scalar,
    execution_time: Scalar,
    numbers: &TransferNumbers,
) -> (r: Result<Transfer, TransferError>)
    ensures
        outcome_of(r) == planned(*start_orbit, *target_orbit, parent_mass, execution_time, *numbers),
        r matches Ok(transfer) ==> transfer.is_ordered(),
{
    let method = transfer_method(start_orbit, target_orbit);
    match (method, numbers) {
        (
            TransferMethod::CircularHohmann,
            TransferNumbers::CircularHohmann(solution),
        ) => common_focus_circular_to_circular_hohmann_transfer(
            start_orbit,
            target_orbit,
            parent_mass,
            execution_time,
            solution,
        ),
        (
            TransferMethod::Tangential,
            TransferNumbers::Tangential(tangential),
        ) => common_focus_tangential_hohmann_transfer(
            start_orbit,
            target_orbit,
            parent_mass,
            execution_time,
            tangential,
        ),
        _ => match check_inputs(start_orbit, target_orbit, parent_mass, execution_time) {
            Err(e) => Err(e),
            Ok(_) => Err(TransferError::MethodMismatch),
        },
    }
}

/// Planning is repeatable: two calls on the same orbits, mass, execution
/// time and numbers plan the same maneuvers, or fail for the same reason.
pub proof fn lemma_planning_is_repeatable(
    start: Orbit,
    target: Orbit,
    parent_mass: Scalar,
    execution_time: Scalar,
    numbers: TransferNumbers,
    first: Result<Transfer, TransferError>,
    second: Result<Transfer, TransferError>,
)
    requires
        outcome_of(first) == planned(start, target, parent_mass, execution_time, numbers),
        outcome_of(second) == planned(start, target, parent_mass, execution_time, numbers),
    ensures
        outcome_of(first) == outcome_of(second),
{
}

/// A planned transfer keeps what it was planned from: it has exactly two
/// maneuvers, the first leaves the start orbit at the execution time, the
/// second leaves the orbit that the first entered, no earlier, and ends on
/// an orbit of the target's size and shape; and every orbit in it is valid.
pub proof fn lemma_planned_transfer_shape(
    start: Orbit,
    target: Orbit,
    parent_mass: Scalar,
    execution_time: Scalar,
    numbers: TransferNumbers,
)
    requires
        planned(start, target, parent_mass, execution_time, numbers) is Ok,
    ensures
        ({
            let maneuvers = planned(start, target, parent_mass, execution_time, numbers).unwrap();
            &&& maneuvers.len() == 2
            &&& maneuvers[0].start_orbit == start
            &&& maneuvers[0].execution_time == execution_time
            &&& maneuvers[1].start_orbit == maneuvers[0].target_orbit
            &&& maneuvers[0].execution_time.le(maneuvers[1].execution_time)
            &&& maneuvers[1].target_orbit.semi_major_axis == target.semi_major_axis
            &&& maneuvers[1].target_orbit.eccentricity == target.eccentricity
            &&& maneuvers[1].target_orbit.argument_of_periapsis == Scalar::zero()
            &&& maneuvers[0].start_orbit.is_valid()
            &&& maneuvers[0].target_orbit.is_valid()
            &&& maneuvers[1].target_orbit.is_valid()
            &&& in_execution_order(maneuvers)
        }),
{
}

/// Between two circles the planned ellipse reaches from one to the other:
/// its semi-major axis is no smaller than the smaller circle's and no larger
/// than the larger one's.
pub proof fn lemma_hohmann_ellipse_spans_the_circles(
    start: Orbit,
    target: Orbit,
    parent_mass: Scalar,
    execution_time: Scalar,
    solution: TransferSolution,
)
    requires
        circular_fault(start, target, parent_mass, execution_time, solution) is None,
    ensures
        start.is_circular() && target.is_circular(),
        lies_between(
            two_impulses(start, target, execution_time, solution)[0].target_orbit.semi_major_axis,
            start.semi_major_axis,
            target.semi_major_axis,
        ),
{
}

} // verus!
