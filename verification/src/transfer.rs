//! Maneuvers, transfers, and the per-body schedule that executes them.

use crate::orbit::Orbit;
use crate::scalar::Scalar;
use std::collections::VecDeque;
use vstd::prelude::*;

verus! {

/// One impulsive change of orbit: at `execution_time` the body leaves
/// `start_orbit` and is on `target_orbit` from then on.
#[derive(Clone, Copy, Debug, PartialEq, Eq, Structural)]
pub struct Maneuver {
    pub start_orbit: Orbit,
    pub target_orbit: Orbit,
    pub execution_time: Scalar,
}

impl Maneuver {
    /// Whether the maneuver is to be executed at simulation time `seconds`:
    /// `seconds >= execution_time`. Never, if either is a NaN.
    pub open spec fn is_due(self, seconds: Scalar) -> bool {
        seconds.ge(self.execution_time)
    }
}

/// Whether no maneuver executes before the one in front of it, and no
/// execution time is a NaN.
pub open spec fn in_execution_order(maneuvers: Seq<Maneuver>) -> bool {
    forall|i: int, j: int|
        0 <= i <= j < maneuvers.len() ==> #[trigger] maneuvers[i].execution_time.le(
            #[trigger] maneuvers[j].execution_time,
        )
}

/// A sequence of maneuvers that together move a body from one orbit to
/// another, front to back in the order of execution.
#[derive(Debug)]
pub struct Transfer {
    pub maneuvers: VecDeque<Maneuver>,
}

impl View for Transfer {
    type V = Seq<Maneuver>;

    open spec fn view(&self) -> Seq<Maneuver> {
        self.maneuvers@
    }
}

impl Transfer {
    /// Whether the maneuvers are in execution order.
    pub open spec fn is_ordered(&self) -> bool {
        in_execution_order(self@)
    }
}

impl Clone for Transfer {
    /// A transfer with the same maneuvers.
    fn clone(&self) -> (r: Transfer)
        ensures
            r@ == self@,
    {
        let maneuvers = self.maneuvers.clone();
        assert(maneuvers@ =~= self.maneuvers@);
        Transfer { maneuvers }
    }
}

impl Default for Transfer {
    /// A transfer without maneuvers.
    fn default() -> (r: Transfer)
        ensures
            r@ == Seq::<Maneuver>::empty(),
    {
        Transfer { maneuvers: VecDeque::new() }
    }
}

/// Whether the maneuver at the very front of the queue is due at `seconds`.
/// An empty transfer at the front has no such maneuver.
pub open spec fn front_is_due(queue: Seq<Seq<Maneuver>>, seconds: Scalar) -> bool {
    queue.len() > 0 && queue[0].len() > 0 && queue[0][0].is_due(seconds)
}

/// The maneuver that a tick at `seconds` executes: the front maneuver of the
/// front transfer if it is due, and otherwise none.
pub open spec fn executed_at(queue: Seq<Seq<Maneuver>>, seconds: Scalar) -> Option<Maneuver> {
    if front_is_due(queue, seconds) {
        Some(queue[0][0])
    } else {
        None
    }
}

/// The queue after a tick at `seconds`: without the maneuver that the tick
/// executed, and without the front transfer if that was its last.
pub open spec fn after_tick(queue: Seq<Seq<Maneuver>>, seconds: Scalar) -> Seq<Seq<Maneuver>> {
    if !front_is_due(queue, seconds) {
        queue
    } else if queue[0].len() == 1 {
        queue.skip(1)
    } else {
        queue.update(0, queue[0].skip(1))
    }
}

/// The transfers queued for one body, front to back in the order in which
/// they are to be flown.
#[derive(Debug)]
pub struct TransferSchedule {
    pub transfers: VecDeque<Transfer>,
}

impl View for TransferSchedule {
    type V = Seq<Seq<Maneuver>>;

    open spec fn view(&self) -> Seq<Seq<Maneuver>> {
        self.transfers@.map_values(|t: Transfer| t@)
    }
}

impl Clone for TransferSchedule {
    /// A schedule with the same transfers.
    fn clone(&self) -> (r: TransferSchedule)
        ensures
            r@ == self@,
    {
        let transfers = self.transfers.clone();
        assert(transfers@.map_values(|t: Transfer| t@) =~= self@);
        TransferSchedule { transfers }
    }
}

impl Default for TransferSchedule {
    /// A schedule without transfers.
    fn default() -> (r: TransferSchedule)
        ensures
            r@ == Seq::<Seq<Maneuver>>::empty(),
    {
        TransferSchedule { transfers: VecDeque::new() }
    }
}

impl TransferSchedule {
    /// Appends `transfer` behind the transfers already queued. Nothing about
    /// the transfer is checked.
    pub fn push_transfer(&mut self, transfer: Transfer)
        ensures
            final(self)@ == old(self)@.push(transfer@),
    {
        self.transfers.push_back(transfer);
    }

    /// Takes the maneuver that is due at `seconds` off the schedule.
    ///
    /// Only the front maneuver of the front transfer is looked at, so at most
    /// one maneuver leaves per call, and none before its execution time. A
    /// transfer leaves the schedule together with its last maneuver.
    pub fn overdue_maneuver(&mut self, seconds: Scalar) -> (executed: Option<Maneuver>)
        ensures
            executed == executed_at(old(self)@, seconds),
            final(self)@ == after_tick(old(self)@, seconds),
    {
        if self.transfers.len() == 0 {
            return None;
        }
        if self.transfers[0].maneuvers.len() == 0 {
            return None;
        }
        let next: Maneuver = self.transfers[0].maneuvers[0];
        if !seconds.ge(next.execution_time) {
            return None;
        }
        let mut front: Transfer = self.transfers.pop_front().unwrap();
        let executed: Option<Maneuver> = front.maneuvers.pop_front();
        if front.maneuvers.len() > 0 {
            self.transfers.push_front(front);
        }
        executed
    }
}

/// Executes the maneuver of `schedule` that is due at `seconds`, if there is
/// one: the body's orbit becomes the maneuver's target orbit, all four
/// elements at once. Otherwise orbit and schedule stay as they are.
pub fn execute_orbital_maneuvers(seconds: Scalar, orbit: &mut Orbit, schedule: &mut TransferSchedule)
    ensures
        *final(orbit) == match executed_at(old(schedule)@, seconds) {
            Some(maneuver) => maneuver.target_orbit,
            None => *old(orbit),
        },
        final(schedule)@ == after_tick(old(schedule)@, seconds),
{
    if let Some(maneuver) = schedule.overdue_maneuver(seconds) {
        *orbit = maneuver.target_orbit;
    }
}

/// Whether every queued transfer still has a maneuver to execute.
pub open spec fn is_live(queue: Seq<Seq<Maneuver>>) -> bool {
    forall|i: int| 0 <= i < queue.len() ==> (#[trigger] queue[i]).len() > 0
}

/// The queue after one tick at each of `ticks`, in turn.
pub open spec fn after_ticks(queue: Seq<Seq<Maneuver>>, ticks: Seq<Scalar>) -> Seq<Seq<Maneuver>>
    decreases ticks.len(),
{
    if ticks.len() == 0 {
        queue
    } else {
        after_ticks(after_tick(queue, ticks[0]), ticks.drop_first())
    }
}

/// The maneuvers that ticks at each of `ticks`, in turn, execute, in the
/// order of their execution.
pub open spec fn executed_over(queue: Seq<Seq<Maneuver>>, ticks: Seq<Scalar>) -> Seq<Maneuver>
    decreases ticks.len(),
{
    if ticks.len() == 0 {
        Seq::empty()
    } else {
        let later = executed_over(after_tick(queue, ticks[0]), ticks.drop_first());
        match executed_at(queue, ticks[0]) {
            Some(maneuver) => seq![maneuver] + later,
            None => later,
        }
    }
}

/// A tick executes the first of all pending maneuvers if that one is due,
/// and nothing otherwise: no maneuver is executed before its time, out of
/// turn, or twice.
///
/// The pending maneuvers are those of all queued transfers, front to back.
/// The law holds while no queued transfer is empty, and a tick keeps it so.
pub proof fn lemma_tick_takes_first_pending(queue: Seq<Seq<Maneuver>>, seconds: Scalar)
    requires
        is_live(queue),
    ensures
        is_live(after_tick(queue, seconds)),
        executed_at(queue, seconds) is Some <==> queue.flatten().len() > 0
            && queue.flatten()[0].is_due(seconds),
        executed_at(queue, seconds) is Some ==> executed_at(queue, seconds) == Some(
            queue.flatten()[0],
        ) && after_tick(queue, seconds).flatten() == queue.flatten().drop_first(),
        executed_at(queue, seconds) is None ==> after_tick(queue, seconds) == queue,
{
    if queue.len() > 0 {
        let front = queue[0];
        let behind = queue.drop_first();
        assert(front.len() > 0);
        assert(queue.flatten() == front + behind.flatten());
        if front_is_due(queue, seconds) {
            let next = after_tick(queue, seconds);
            if front.len() == 1 {
                assert(next == behind);
                assert(queue.flatten().drop_first() == behind.flatten());
            } else {
                assert(next.len() > 0);
                assert(next[0] == front.skip(1));
                assert(next.drop_first() == behind);
                assert(next.flatten() == front.skip(1) + behind.flatten());
                assert(queue.flatten().drop_first() == front.skip(1) + behind.flatten());
            }
        }
    }
}

/// Whatever the ticks, the maneuvers executed followed by those still
/// pending are the maneuvers that were pending at the start: each maneuver
/// is executed at most once, in queue order, and none is dropped.
pub proof fn lemma_ticks_keep_pending_order(queue: Seq<Seq<Maneuver>>, ticks: Seq<Scalar>)
    requires
        is_live(queue),
    ensures
        is_live(after_ticks(queue, ticks)),
        executed_over(queue, ticks) + after_ticks(queue, ticks).flatten() == queue.flatten(),
    decreases ticks.len(),
{
    if ticks.len() > 0 {
        let next = after_tick(queue, ticks[0]);
        lemma_tick_takes_first_pending(queue, ticks[0]);
        lemma_ticks_keep_pending_order(next, ticks.drop_first());
        let later = executed_over(next, ticks.drop_first());
        let left = after_ticks(next, ticks.drop_first()).flatten();
        assert(later + left == next.flatten());
        if executed_at(queue, ticks[0]) is Some {
            let first = queue.flatten()[0];
            assert(seq![first] + queue.flatten().drop_first() == queue.flatten());
            assert((seq![first] + later) + left == seq![first] + (later + left));
        }
    }
}

/// Once every pending maneuver is due, each tick executes one, so as many
/// ticks as there are pending maneuvers empty the schedule.
pub proof fn lemma_schedule_drains(queue: Seq<Seq<Maneuver>>, ticks: Seq<Scalar>)
    requires
        is_live(queue),
        ticks.len() >= queue.flatten().len(),
        forall|i: int, j: int|
            0 <= i < ticks.len() && 0 <= j < queue.flatten().len() ==> (#[trigger] queue.flatten()[j]).is_due(
                #[trigger] ticks[i],
            ),
    ensures
        after_ticks(queue, ticks).len() == 0,
        executed_over(queue, ticks) == queue.flatten(),
    decreases ticks.len(),
{
    let pending = queue.flatten();
    if queue.len() > 0 {
        assert(queue[0].len() > 0);
        assert(pending == queue[0] + queue.drop_first().flatten());
        assert(pending.len() > 0);
    }
    if ticks.len() == 0 {
        assert(queue.len() == 0);
    } else {
        let next = after_tick(queue, ticks[0]);
        let rest = ticks.drop_first();
        lemma_tick_takes_first_pending(queue, ticks[0]);
        if queue.len() == 0 {
            assert(next == queue);
            lemma_schedule_drains(next, rest);
        } else {
            assert(pending[0].is_due(ticks[0]));
            assert(next.flatten() == pending.drop_first());
            assert forall|i: int, j: int|
                0 <= i < rest.len() && 0 <= j < next.flatten().len() implies (
            #[trigger] next.flatten()[j]).is_due(#[trigger] rest[i]) by {
                assert(next.flatten()[j] == pending[j + 1]);
                assert(rest[i] == ticks[i + 1]);
            }
            lemma_schedule_drains(next, rest);
            assert(seq![pending[0]] + pending.drop_first() == pending);
        }
    }
}

/// A pushed transfer is flown after everything queued before it: its
/// maneuvers join the pending ones at the back, in their own order.
pub proof fn lemma_push_appends_pending(queue: Seq<Seq<Maneuver>>, transfer: Seq<Maneuver>)
    ensures
        queue.push(transfer).flatten() == queue.flatten() + transfer,
        is_live(queue) && transfer.len() > 0 ==> is_live(queue.push(transfer)),
    decreases queue.len(),
{
    let pushed = queue.push(transfer);
    if queue.len() == 0 {
        assert(pushed.drop_first() == Seq::<Seq<Maneuver>>::empty());
        assert(pushed.flatten() == transfer + Seq::<Seq<Maneuver>>::empty().flatten());
        assert(pushed.flatten() == transfer);
        assert(queue.flatten() + transfer == transfer);
    } else {
        lemma_push_appends_pending(queue.drop_first(), transfer);
        assert(pushed.drop_first() == queue.drop_first().push(transfer));
        assert(pushed.flatten() == queue[0] + (queue.drop_first().flatten() + transfer));
        assert(queue.flatten() == queue[0] + queue.drop_first().flatten());
        assert(queue[0] + (queue.drop_first().flatten() + transfer) == (queue[0]
            + queue.drop_first().flatten()) + transfer);
    }
}

/// In a transfer whose maneuvers are in execution order, every maneuver is
/// due once the last one is.
pub proof fn lemma_ordered_maneuvers_due_by_last(maneuvers: Seq<Maneuver>, seconds: Scalar)
    requires
        in_execution_order(maneuvers),
        maneuvers.len() > 0,
        maneuvers.last().is_due(seconds),
    ensures
        forall|i: int| 0 <= i < maneuvers.len() ==> (#[trigger] maneuvers[i]).is_due(seconds),
{
    assert forall|i: int| 0 <= i < maneuvers.len() implies (#[trigger] maneuvers[i]).is_due(
        seconds,
    ) by {
        assert(maneuvers[i].execution_time.le(maneuvers[maneuvers.len() - 1].execution_time));
    }
}

/// A transfer of two maneuvers on an otherwise idle schedule, ticked before
/// the first maneuver is due, then when it is due, then when the second is
/// due, and once more: the first tick executes nothing, the second the first
/// maneuver, the third the second maneuver, the fourth nothing, and the
/// schedule is idle from the third tick on.
pub proof fn lemma_two_maneuvers_drain_in_turn(
    first: Maneuver,
    second: Maneuver,
    early: Scalar,
    at_first: Scalar,
    at_second: Scalar,
    late: Scalar,
)
    requires
        !first.is_due(early),
        first.is_due(at_first),
        second.is_due(at_second),
    ensures
        ({
            let queue = seq![seq![first, second]];
            let ticks = seq![early, at_first, at_second, late];
            let q1 = after_tick(queue, early);
            let q2 = after_tick(q1, at_first);
            let q3 = after_tick(q2, at_second);
            &&& executed_at(queue, early) is None
            &&& executed_at(q1, at_first) == Some(first)
            &&& executed_at(q2, at_second) == Some(second)
            &&& executed_at(q3, late) is None
            &&& q3.len() == 0
            &&& after_ticks(queue, ticks).len() == 0
            &&& executed_over(queue, ticks) == seq![first, second]
        }),
{
    let queue = seq![seq![first, second]];
    let ticks = seq![early, at_first, at_second, late];
    let q1 = after_tick(queue, early);
    let q2 = after_tick(q1, at_first);
    let q3 = after_tick(q2, at_second);
    assert(q1 == queue);
    assert(queue[0].skip(1) == seq![second]);
    assert(q2 == seq![seq![second]]);
    assert(q3.len() == 0);
    let ticks1 = ticks.drop_first();
    let ticks2 = ticks1.drop_first();
    let ticks3 = ticks2.drop_first();
    let ticks4 = ticks3.drop_first();
    assert(ticks1[0] == at_first && ticks2[0] == at_second && ticks3[0] == late);
    assert(ticks4.len() == 0);
    assert(after_ticks(q3, ticks4) == q3);
    assert(after_ticks(q3, ticks3) == q3);
    assert(after_ticks(q2, ticks2) == q3);
    assert(after_ticks(q1, ticks1) == q3);
    assert(executed_over(q3, ticks4) == Seq::<Maneuver>::empty());
    assert(executed_over(q3, ticks3) == Seq::<Maneuver>::empty());
    assert(executed_over(q2, ticks2) == seq![second]);
    assert(executed_over(q1, ticks1) == seq![first, second]);
}

} // verus!
