//! What holds of every run of an update, whatever happens to the replica set in between.

use vstd::prelude::*;
use crate::attempt::ReplicaCount;
use crate::failures::lemma_disabling_nothing;
use crate::merge::{any_clock_rejected, failures_of, is_merge_of, successes_of, Reply};
use crate::messages::UPDATE_MAX_CLOCK_REJECTED_RETRIES;
use crate::replica_set::ReplicaSetView;
use crate::types::{ClockTag, PeerId, ReplicaError, UpdateResult};
use crate::update::{
    starts_attempt, Attempt, Update, UpdateAction, UpdateEvent, UpdatePhase, UpdateRequest,
    UpdateStep,
};

verus! {

/// One step of a run: the replica set as it was then, what had happened, and what followed.
pub struct Transition {
    pub replica_set: ReplicaSetView,
    pub event: UpdateEvent,
    pub step: UpdateStep,
}

/// The update before the step at `i` of a run, or behind the run if there is no such step.
pub open spec fn update_before(start: Update, run: Seq<Transition>, i: int) -> Update {
    if i <= 0 {
        start
    } else {
        run[i - 1].step.update
    }
}

/// Whether a transition is one that `update` can make.
pub open spec fn can_make(update: Update, transition: Transition) -> bool {
    &&& update.spec_awaits(transition.event)
    &&& transition.replica_set.steps_to(update, transition.event, transition.step)
}

/// Whether the steps of a run follow on each other, from `start`.
pub open spec fn is_run(start: Update, run: Seq<Transition>) -> bool {
    forall|i: int|
        0 <= i < run.len() ==> #[trigger] can_make(update_before(start, run, i), run[i])
}

/// How often a run sends the operation to the replicas.
pub open spec fn dispatch_count(run: Seq<Transition>) -> nat
    decreases run.len(),
{
    if run.len() == 0 {
        0
    } else {
        dispatch_count(run.drop_last()) + if run.last().step.action is Dispatch {
            1nat
        } else {
            0nat
        }
    }
}

impl Attempt {
    /// The attempt is one of those that an update has.
    pub open spec fn valid(self) -> bool {
        1 <= self.number <= UPDATE_MAX_CLOCK_REJECTED_RETRIES
    }
}

/// A tag is one of the attempt's clock, and no replica is forced to accept it.
pub open spec fn is_tag_of(attempt: Attempt, clock_tag: ClockTag) -> bool {
    &&& clock_tag.clock_id == attempt.clock_id
    &&& !clock_tag.force
}

impl Update {
    /// What holds of an update in every phase.
    pub open spec fn valid(self) -> bool {
        let ordered = self.request.ordering.is_ordered();
        match self.phase {
            UpdatePhase::Forwarding { .. } => true,
            UpdatePhase::AcquiringClock => true,
            UpdatePhase::ReadingReplicas { attempt } => attempt.valid(),
            UpdatePhase::LockingOrder { attempt, .. } => attempt.valid() && ordered,
            UpdatePhase::Ticking { attempt, .. } => attempt.valid(),
            UpdatePhase::UnlockingOrder { attempt, clock_tag, .. } => attempt.valid() && is_tag_of(
                attempt,
                clock_tag,
            ) && ordered,
            UpdatePhase::CheckingRateLimit { attempt, dispatch, .. } => attempt.valid()
                && is_tag_of(attempt, dispatch.clock_tag),
            UpdatePhase::Dispatching { attempt, clock_tag, .. } => attempt.valid() && is_tag_of(
                attempt,
                clock_tag,
            ),
            UpdatePhase::Deactivating { attempt, .. } => attempt.valid(),
            UpdatePhase::Finished => true,
        }
    }

    /// How often the operation has been sent to the replicas at most.
    pub open spec fn dispatched(self) -> int {
        match self.phase {
            UpdatePhase::Forwarding { .. } | UpdatePhase::AcquiringClock => 0,
            UpdatePhase::ReadingReplicas { attempt }
            | UpdatePhase::LockingOrder { attempt, .. }
            | UpdatePhase::Ticking { attempt, .. }
            | UpdatePhase::UnlockingOrder { attempt, .. }
            | UpdatePhase::CheckingRateLimit { attempt, .. } => attempt.number - 1,
            UpdatePhase::Dispatching { attempt, .. } | UpdatePhase::Deactivating { attempt, .. } =>
                attempt.number as int,
            UpdatePhase::Finished => UPDATE_MAX_CLOCK_REJECTED_RETRIES as int,
        }
    }

    /// How many steps the update takes at most until it is finished: seven in each attempt, and
    /// one before the first.
    pub open spec fn steps_left(self) -> int {
        let later = |attempt: Attempt| 7 * (UPDATE_MAX_CLOCK_REJECTED_RETRIES - attempt.number);
        match self.phase {
            UpdatePhase::Forwarding { .. } => 1,
            UpdatePhase::AcquiringClock => 1 + 7 * UPDATE_MAX_CLOCK_REJECTED_RETRIES,
            UpdatePhase::ReadingReplicas { attempt } => later(attempt) + 7,
            UpdatePhase::LockingOrder { attempt, .. } => later(attempt) + 6,
            UpdatePhase::Ticking { attempt, .. } => later(attempt) + 5,
            UpdatePhase::UnlockingOrder { attempt, .. } => later(attempt) + 4,
            UpdatePhase::CheckingRateLimit { attempt, .. } => later(attempt) + 3,
            UpdatePhase::Dispatching { attempt, .. } => later(attempt) + 2,
            UpdatePhase::Deactivating { attempt, .. } => later(attempt) + 1,
            UpdatePhase::Finished => 0,
        }
    }

    /// Whether the update holds the write ordering lock.
    pub open spec fn holds_order_lock(self) -> bool {
        &&& self.request.ordering.is_ordered()
        &&& self.phase is Ticking || self.phase is UnlockingOrder
    }
}

/// A step keeps what holds of an update, sends the operation to the replicas once per attempt
/// at most, and brings the update nearer to its end.
pub proof fn law_step_makes_progress(
    rs: ReplicaSetView,
    update: Update,
    event: UpdateEvent,
    step: UpdateStep,
)
    requires
        update.valid(),
        rs.steps_to(update, event, step),
    ensures
        step.update.valid(),
        step.update.request == update.request,
        step.update.steps_left() < update.steps_left(),
        step.action is Dispatch ==> step.update.dispatched() > update.dispatched(),
        step.update.dispatched() >= update.dispatched(),
{
}

/// The first step of an update leads to an update of which everything holds that has to.
pub proof fn law_started_update_is_valid(
    rs: ReplicaSetView,
    request: UpdateRequest,
    step: UpdateStep,
)
    requires
        rs.starts(request, step),
    ensures
        step.update.valid(),
        step.update.request == request,
{
}

/// What a whole run adds up to.
proof fn lemma_run(start: Update, run: Seq<Transition>)
    requires
        start.valid(),
        is_run(start, run),
    ensures
        update_before(start, run, run.len() as int).valid(),
        update_before(start, run, run.len() as int).request == start.request,
        run.len() + update_before(start, run, run.len() as int).steps_left()
            <= start.steps_left(),
        dispatch_count(run) + start.dispatched() <= update_before(
            start,
            run,
            run.len() as int,
        ).dispatched(),
    decreases run.len(),
{
    if run.len() > 0 {
        let rest = run.drop_last();
        let last = run.len() - 1;
        assert forall|i: int| 0 <= i < rest.len() implies #[trigger] can_make(
            update_before(start, rest, i),
            rest[i],
        ) by {
            assert(update_before(start, rest, i) == update_before(start, run, i));
            assert(can_make(update_before(start, run, i), run[i]));
        }
        lemma_run(start, rest);
        assert(update_before(start, rest, last) == update_before(start, run, last));
        assert(can_make(update_before(start, run, last), run[last]));
        law_step_makes_progress(
            run[last].replica_set,
            update_before(start, run, last),
            run[last].event,
            run[last].step,
        );
    }
}

/// However often replicas reject an update because of its clock, it is sent to them at most
/// three times.
pub proof fn law_attempts_are_bounded(start: Update, run: Seq<Transition>)
    requires
        start.valid(),
        start.phase is AcquiringClock || start.phase is Forwarding,
        is_run(start, run),
    ensures
        dispatch_count(run) <= UPDATE_MAX_CLOCK_REJECTED_RETRIES,
{
    lemma_run(start, run);
}

/// An update comes to an end: one that is forwarded takes one step, and one that this peer
/// leads takes seven in each attempt and one before the first, at most.
pub proof fn law_update_ends(start: Update, run: Seq<Transition>)
    requires
        start.valid(),
        is_run(start, run),
    ensures
        run.len() <= start.steps_left(),
        run.len() <= 1 + 7 * UPDATE_MAX_CLOCK_REJECTED_RETRIES,
{
    lemma_run(start, run);
}

/// An update is finished exactly when it answers the client, and takes no event from then on.
pub proof fn law_finished_update_has_answered(
    rs: ReplicaSetView,
    update: Update,
    event: UpdateEvent,
    step: UpdateStep,
    next: UpdateEvent,
)
    requires
        rs.steps_to(update, event, step),
    ensures
        step.action is Finish <==> step.update.phase is Finished,
        step.action is Finish ==> !step.update.spec_awaits(next),
{
}

/// The write ordering lock is only held around the tick of the clock: the lock is taken right
/// before it and given back right after it, and nothing is asked of a replica or of the rate
/// limiter, nor any deactivation waited for, while it is held.
pub proof fn law_order_lock_is_only_held_for_the_tick(
    rs: ReplicaSetView,
    update: Update,
    event: UpdateEvent,
    step: UpdateStep,
)
    requires
        update.valid(),
        rs.steps_to(update, event, step),
    ensures
        step.update.holds_order_lock() <==> {
            &&& update.request.ordering.is_ordered()
            &&& step.action is TickClock || step.action is UnlockOrder
        },
        !update.holds_order_lock() && step.update.holds_order_lock() ==> event is OrderLocked,
        update.holds_order_lock() && !step.update.holds_order_lock() ==> event is OrderUnlocked,
{
}

/// An ordered update ticks its clock under the write ordering lock, and one without order never
/// takes that lock.
pub proof fn law_ordered_updates_tick_under_the_lock(
    rs: ReplicaSetView,
    update: Update,
    event: UpdateEvent,
    step: UpdateStep,
)
    requires
        update.valid(),
        rs.steps_to(update, event, step),
    ensures
        update.request.ordering.is_ordered() && event is Ticked ==> update.holds_order_lock(),
        update.request.ordering is Weak ==> {
            &&& !(step.action is LockOrder)
            &&& !(step.action is UnlockOrder)
            &&& !step.update.holds_order_lock()
        },
{
}

/// What is sent to the replicas carries a tag of this peer's clock, with the tick that the
/// clock has just given out, and no replica is forced to accept it.
pub proof fn law_dispatch_carries_the_tag_of_its_attempt(
    rs: ReplicaSetView,
    update: Update,
    event: UpdateEvent,
    step: UpdateStep,
)
    requires
        update.valid(),
        rs.steps_to(update, event, step),
    ensures
        step.action matches UpdateAction::Dispatch(dispatch) ==> {
            &&& step.update.phase matches UpdatePhase::Dispatching { attempt, clock_tag, .. }
            &&& dispatch.clock_tag == clock_tag
            &&& is_tag_of(attempt, clock_tag)
        },
        event matches UpdateEvent::Ticked { clock_tick, .. } ==> {
            match step.update.phase {
                UpdatePhase::UnlockingOrder { clock_tag, .. }
                | UpdatePhase::Dispatching { clock_tag, .. } => {
                    clock_tag.peer_id == rs.this_peer_id && clock_tag.clock_tick == clock_tick
                },
                UpdatePhase::CheckingRateLimit { dispatch, .. } => {
                    &&& dispatch.clock_tag.peer_id == rs.this_peer_id
                    &&& dispatch.clock_tag.clock_tick == clock_tick
                },
                _ => false,
            }
        },
{
}

/// An update that is refused by the write rate limiter is not sent to any replica.
pub proof fn law_rate_limited_update_is_not_sent(
    rs: ReplicaSetView,
    update: Update,
    event: UpdateEvent,
    step: UpdateStep,
)
    requires
        rs.steps_to(update, event, step),
        event matches UpdateEvent::RateLimitChecked(checked) && checked is Err,
    ensures
        step.action is Finish,
        !(step.action is Dispatch),
{
}

/// Replies are enough for an update to be accepted: there is no failure among them, or as many
/// replicas took it as were needed.
pub open spec fn accepts(
    rs: ReplicaSetView,
    replies: Seq<Reply>,
    replicas: ReplicaCount,
) -> bool {
    failures_of(replies).len() == 0 || rs.enough_successes(successes_of(replies), replicas)
}

/// A client is only told of success by the answers of the replicas if enough of them took the
/// update, none rejected it because of its clock, and one of those that took it can be a source
/// of truth and is not deactivated in the same step.
pub proof fn law_success_is_backed_by_a_source_of_truth(
    rs: ReplicaSetView,
    update: Update,
    replies: Vec<Reply>,
    step: UpdateStep,
    result: UpdateResult,
)
    requires
        rs.steps_to(update, UpdateEvent::Replied(replies), step),
        step.action == UpdateAction::Finish(Ok(result)),
    ensures
        update.phase matches UpdatePhase::Dispatching { replicas, .. } && accepts(
            rs,
            replies@,
            replicas,
        ),
        rs.any_source_of_truth(successes_of(replies@)),
        rs.disabling(step.deactivations@).any_source_of_truth(successes_of(replies@)),
        !any_clock_rejected(successes_of(replies@)),
        is_merge_of(result, successes_of(replies@)),
{
}

/// While failed replicas are being deactivated, the update keeps the answers of those that took
/// it, and there are enough of them.
pub proof fn law_deactivation_keeps_the_successes(
    rs: ReplicaSetView,
    update: Update,
    replies: Vec<Reply>,
    step: UpdateStep,
)
    requires
        rs.steps_to(update, UpdateEvent::Replied(replies), step),
        step.update.phase is Deactivating,
    ensures
        update.phase matches UpdatePhase::Dispatching { replicas, .. } && accepts(
            rs,
            replies@,
            replicas,
        ),
        step.update.phase matches UpdatePhase::Deactivating { accepted, .. }
            && accepted.successes@ == successes_of(replies@),
{
}

/// The same holds where the client is told of success after failed replicas were deactivated,
/// by the replica set as it is by then.
pub proof fn law_success_after_deactivation_is_backed_by_a_source_of_truth(
    rs: ReplicaSetView,
    update: Update,
    event: UpdateEvent,
    step: UpdateStep,
    result: UpdateResult,
)
    requires
        rs.steps_to(update, event, step),
        update.phase is Deactivating,
        step.action == UpdateAction::Finish(Ok(result)),
    ensures
        event matches UpdateEvent::DeactivationAwaited(awaited) && awaited == Ok::<
            bool,
            ReplicaError,
        >(true),
        update.phase matches UpdatePhase::Deactivating { accepted, .. } && {
            &&& rs.any_source_of_truth(accepted.successes@)
            &&& !any_clock_rejected(accepted.successes@)
            &&& is_merge_of(result, accepted.successes@)
        },
{
}

/// Whether the replies at `i` of a run back its success: enough replicas took the update, none
/// of them rejected it because of its clock, `result` sums up their answers, and one of them can
/// be a source of truth when the run ends, and is not deactivated then.
pub open spec fn backs_success(
    start: Update,
    run: Seq<Transition>,
    i: int,
    result: UpdateResult,
) -> bool {
    &&& 0 <= i < run.len()
    &&& update_before(start, run, i).phase matches UpdatePhase::Dispatching { replicas, .. }
    &&& run[i].event matches UpdateEvent::Replied(replies)
    &&& accepts(run[i].replica_set, replies@, replicas)
    &&& !any_clock_rejected(successes_of(replies@))
    &&& is_merge_of(result, successes_of(replies@))
    &&& run.last().replica_set.disabling(run.last().step.deactivations@).any_source_of_truth(
        successes_of(replies@),
    )
}

/// Where this peer leads an update and tells the client of success, the replies of the last
/// attempt back it, whether or not failed replicas had to be deactivated first.
pub proof fn law_success_is_backed_by_replies(
    start: Update,
    run: Seq<Transition>,
    result: UpdateResult,
)
    requires
        start.phase is AcquiringClock,
        is_run(start, run),
        run.len() > 0,
        run.last().step.action == UpdateAction::Finish(Ok(result)),
    ensures
        exists|i: int| #[trigger] backs_success(start, run, i, result),
{
    let last = run.len() - 1;
    let update = update_before(start, run, last);
    assert(can_make(update, run[last]));
    if last > 0 {
        assert(can_make(update_before(start, run, last - 1), run[last - 1]));
    }
    if update.phase is Dispatching {
        assert(backs_success(start, run, last, result));
    } else {
        assert(update.phase is Deactivating);
        lemma_disabling_nothing(run[last].replica_set, run[last].step.deactivations@);
        assert(backs_success(start, run, last - 1, result));
    }
}

/// If all replicas take an update, none rejects it because of its clock and one of them can be
/// a source of truth, the client is told of success.
pub proof fn law_update_taken_by_all_succeeds(
    rs: ReplicaSetView,
    update: Update,
    replies: Vec<Reply>,
    step: UpdateStep,
)
    requires
        rs.steps_to(update, UpdateEvent::Replied(replies), step),
        failures_of(replies@).len() == 0,
        rs.any_source_of_truth(successes_of(replies@)),
        !any_clock_rejected(successes_of(replies@)),
    ensures
        step.deactivations@.len() == 0,
        step.action matches UpdateAction::Finish(Ok(result)) && is_merge_of(
            result,
            successes_of(replies@),
        ),
{
    reveal(Seq::filter);
    if let UpdatePhase::Dispatching { replicas, .. } = update.phase {
        let successes = successes_of(replies@);
        let failures = failures_of(replies@);
        let only_existing = update.request.update_only_existing;
        let handled = rs.handled_failures(successes, failures, replicas, only_existing);
        assert(handled.len() == 0);
        lemma_disabling_nothing(rs, rs.deactivations(handled, only_existing));
    }
}

/// An accepted update that some replica rejects because of its clock is tried again with the
/// same clock as long as attempts are left: at once, if there is no failure or the client does
/// not wait for failed replicas to be deactivated.
pub proof fn law_rejected_update_is_tried_again(
    rs: ReplicaSetView,
    update: Update,
    replies: Vec<Reply>,
    step: UpdateStep,
    attempt: Attempt,
)
    requires
        rs.steps_to(update, UpdateEvent::Replied(replies), step),
        update.phase matches UpdatePhase::Dispatching { attempt: current, replicas, .. } && current
            == attempt && accepts(rs, replies@, replicas),
        attempt.number < UPDATE_MAX_CLOCK_REJECTED_RETRIES,
        failures_of(replies@).len() == 0 || !update.request.wait,
        rs.disabling(step.deactivations@).any_source_of_truth(successes_of(replies@)),
        any_clock_rejected(successes_of(replies@)),
    ensures
        starts_attempt(
            step,
            Attempt { number: (attempt.number + 1) as usize, clock_id: attempt.clock_id },
        ),
{
    reveal(Seq::filter);
    if let UpdatePhase::Dispatching { replicas, .. } = update.phase {
        let handled = rs.handled_failures(
            successes_of(replies@),
            failures_of(replies@),
            replicas,
            update.request.update_only_existing,
        );
        assert(failures_of(replies@).len() == 0 ==> handled.len() == 0);
    }
}

/// The same holds once the client has waited for failed replicas to be deactivated.
pub proof fn law_rejected_update_is_tried_again_after_deactivation(
    rs: ReplicaSetView,
    update: Update,
    step: UpdateStep,
    attempt: Attempt,
)
    requires
        rs.steps_to(update, UpdateEvent::DeactivationAwaited(Ok(true)), step),
        update.phase matches UpdatePhase::Deactivating { attempt: current, accepted } && current
            == attempt && rs.any_source_of_truth(accepted.successes@) && any_clock_rejected(
            accepted.successes@,
        ),
        attempt.number < UPDATE_MAX_CLOCK_REJECTED_RETRIES,
    ensures
        starts_attempt(
            step,
            Attempt { number: (attempt.number + 1) as usize, clock_id: attempt.clock_id },
        ),
{
}

/// A leader is deactivated exactly if it fails, or cannot be asked, for the time being; no other
/// replica is.
pub proof fn law_only_a_transient_failure_deactivates_the_leader(
    rs: ReplicaSetView,
    update: Update,
    event: UpdateEvent,
    step: UpdateStep,
    leader_peer: PeerId,
)
    requires
        rs.steps_to(update, event, step),
        update.phase == (UpdatePhase::Forwarding { leader_peer }),
    ensures
        step.action is Finish,
        step.deactivations@.len() > 0 <==> match event {
            UpdateEvent::Forwarded(Err(error)) => error.transient,
            UpdateEvent::LeaderRemoved { transient, .. } => transient,
            _ => false,
        },
        forall|i: int|
            0 <= i < step.deactivations@.len() ==> (#[trigger] step.deactivations@[i]).peer_id
                == leader_peer,
{
}

/// An update without order is led by the peer that the client asked, whatever the state of the
/// replicas.
pub proof fn law_weak_update_is_never_forwarded(
    rs: ReplicaSetView,
    request: UpdateRequest,
    step: UpdateStep,
)
    requires
        rs.starts(request, step),
        request.ordering is Weak,
    ensures
        step.action is AcquireClock,
        step.update.phase is AcquiringClock,
{
}

/// A strongly ordered update finds a leader wherever there is a replica at all.
pub proof fn law_strong_update_finds_a_leader(
    rs: ReplicaSetView,
    request: UpdateRequest,
    step: UpdateStep,
    peer_id: PeerId,
)
    requires
        rs.starts(request, step),
        request.ordering is Strong,
        rs.peers.contains_key(peer_id),
    ensures
        step.action is AcquireClock || step.action is Forward,
{
    assert(rs.peers.dom().contains(peer_id));
}

} // verus!
