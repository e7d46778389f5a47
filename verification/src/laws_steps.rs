//! What the steps of an update do, from its routing to the point where it is sent out.

use vstd::prelude::*;
use crate::attempt::{ReplicaCount, UpdateTargets};
use crate::duration::duration_debug;
use crate::laws::law_leader_is_unique;
use crate::laws_basics::{
    law_targets_are_the_updatable_remotes, law_update_needs_one_updatable_replica,
};
use crate::replica_set::ReplicaSetView;
use crate::runs::{can_make, is_run, update_before, Transition};
use crate::text::decimal;
use crate::types::{
    CollectionError, PeerId, ReplicaError, ReplicaState, UpdateResult, WriteOrdering,
};
use crate::update::{
    Attempt, Dispatch, ForwardedUpdate, Update, UpdateAction, UpdateEvent, UpdatePhase,
    UpdateRequest, UpdateStep,
};

verus! {

// Routing

/// An update starts with its leader: this peer waits for a clock if it leads itself, and sends
/// the operation on otherwise. Nothing is deactivated, and no clock is advanced.
pub proof fn law_update_starts_with_its_leader(
    rs: ReplicaSetView,
    request: UpdateRequest,
    leader_peer: PeerId,
    step: UpdateStep,
)
    requires
        rs.starts(request, step),
        rs.is_leader_for(request.ordering, Some(leader_peer)),
    ensures
        step.update.request == request,
        step.advance_clock_to is None,
        step.deactivations@.len() == 0,
        leader_peer == rs.this_peer_id ==> {
            &&& step.update.phase is AcquiringClock
            &&& step.action matches UpdateAction::AcquireClock { timeout }
            &&& request.timeout matches Some(asked) ==> timeout@ == asked@
            &&& request.timeout is None ==> timeout@ == (u64::MAX, 999_999_999u32)
        },
        leader_peer != rs.this_peer_id ==> {
            &&& step.update.phase == (UpdatePhase::Forwarding { leader_peer })
            &&& step.action == (UpdateAction::Forward { leader_peer })
        },
        step.update.disposable_hw_measurement <==> rs.peers.dom().contains(leader_peer) && (
        rs.peers[leader_peer] == ReplicaState::Resharding || rs.peers[leader_peer]
            == ReplicaState::ReshardingScaleDown),
{
    let leader = choose|leader: Option<PeerId>|
        {
            &&& #[trigger] rs.is_leader_for(request.ordering, leader)
            &&& rs.starts_under(request, leader, step)
        };
    law_leader_is_unique(rs, request.ordering, leader, Some(leader_peer));
}

/// An update for which there is no leader fails, and says which shard and which order it is about.
pub proof fn law_update_without_leader_fails(
    rs: ReplicaSetView,
    request: UpdateRequest,
    step: UpdateStep,
)
    requires
        rs.starts(request, step),
        rs.is_leader_for(request.ordering, None),
    ensures
        step.update.phase is Finished,
        step.deactivations@.len() == 0,
        step.action matches UpdateAction::Finish(Err(CollectionError::ServiceError { error }))
            && error@ == "Cannot update shard "@ + rs.collection_id + ":"@ + decimal(
            rs.shard_id as nat,
        ) + " with "@ + (match request.ordering {
            WriteOrdering::Weak => "Weak"@,
            WriteOrdering::Medium => "Medium"@,
            WriteOrdering::Strong => "Strong"@,
        }) + " ordering because no leader could be selected"@,
{
    let leader = choose|leader: Option<PeerId>|
        {
            &&& #[trigger] rs.is_leader_for(request.ordering, leader)
            &&& rs.starts_under(request, leader, step)
        };
    law_leader_is_unique(rs, request.ordering, leader, None);
}

// Forwarding

/// `step` blames the leader: it is deactivated from its present state, and the client is told by
/// which leader and with which error the update failed.
pub open spec fn blames_leader(
    rs: ReplicaSetView,
    request: UpdateRequest,
    leader_peer: PeerId,
    text: Seq<char>,
    step: UpdateStep,
) -> bool {
    &&& step.deactivations@.len() == 1
    &&& step.deactivations@[0].peer_id == leader_peer
    &&& rs.peers.dom().contains(leader_peer) ==> step.deactivations@[0].from_state == Some(
        rs.peers[leader_peer],
    )
    &&& !rs.peers.dom().contains(leader_peer) ==> step.deactivations@[0].from_state is None
    &&& step.action matches UpdateAction::Finish(Err(CollectionError::ServiceError { error }))
    &&& error@ == "Failed to apply update with "@ + (match request.ordering {
        WriteOrdering::Weak => "Weak"@,
        WriteOrdering::Medium => "Medium"@,
        WriteOrdering::Strong => "Strong"@,
    }) + " ordering via leader peer "@ + decimal(leader_peer as nat) + ": "@ + text
}

/// What the leader answers is what the client is told. A failure that may pass is told as one of
/// the leader, which is deactivated; any other failure is handed on as it is.
pub proof fn law_answer_of_the_leader_is_handed_on(
    rs: ReplicaSetView,
    update: Update,
    leader_peer: PeerId,
    reply: Result<UpdateResult, ReplicaError>,
    step: UpdateStep,
)
    requires
        update.phase == (UpdatePhase::Forwarding { leader_peer }),
        rs.steps_to(update, UpdateEvent::Forwarded(reply), step),
    ensures
        step.update.phase is Finished,
        step.advance_clock_to is None,
        reply matches Ok(result) ==> step.action == UpdateAction::Finish(Ok(result))
            && step.deactivations@.len() == 0,
        reply matches Err(error) ==> {
            &&& error.transient ==> blames_leader(
                rs,
                update.request,
                leader_peer,
                error.text@,
                step,
            )
            &&& !error.transient ==> {
                &&& step.action == UpdateAction::Finish(Err(CollectionError::Replica(error)))
                &&& step.deactivations@.len() == 0
            }
        },
{
}

/// A leader that holds no replica any more is blamed like one that failed if the error may pass.
/// Otherwise the client is told that it was removed, and nothing is deactivated.
pub proof fn law_removed_leader_is_told_of(
    rs: ReplicaSetView,
    update: Update,
    leader_peer: PeerId,
    text: String,
    transient: bool,
    step: UpdateStep,
)
    requires
        update.phase == (UpdatePhase::Forwarding { leader_peer }),
        rs.steps_to(update, UpdateEvent::LeaderRemoved { text, transient }, step),
    ensures
        step.update.phase is Finished,
        step.advance_clock_to is None,
        transient ==> blames_leader(rs, update.request, leader_peer, text@, step),
        !transient ==> {
            &&& step.deactivations@.len() == 0
            &&& step.action matches UpdateAction::Finish(
                Err(CollectionError::ServiceError { error }),
            )
            &&& error@ == "Cannot forward update to shard "@ + decimal(rs.shard_id as nat)
                + " because was removed from the replica set"@
        },
{
}

/// An operation is sent to the leader exactly if the leader is among the remote replicas: at its
/// first place there, without a tag, and with what the client asked for. Otherwise it was removed.
pub proof fn law_leader_is_asked_where_it_stands(
    rs: ReplicaSetView,
    leader_peer: PeerId,
    request: UpdateRequest,
    forwarded: Result<ForwardedUpdate, CollectionError>,
    i: int,
)
    requires
        rs.forwards(leader_peer, request, forwarded),
    ensures
        0 <= i < rs.remotes.len() && rs.remotes[i] == leader_peer ==> (forwarded matches Ok(sent)
            && sent.remote <= i),
        forwarded matches Ok(sent) ==> {
            &&& sent.remote < rs.remotes.len()
            &&& rs.remotes[sent.remote as int] == leader_peer
            &&& sent.clock_tag is None
            &&& sent.wait == request.wait
            &&& sent.timeout == request.timeout
            &&& sent.ordering == request.ordering
        },
        forwarded matches Err(error) ==> {
            &&& error matches CollectionError::ServiceError { error: text }
            &&& text@ == "Cannot forward update to shard "@ + decimal(rs.shard_id as nat)
                + " because was removed from the replica set"@
        },
{
    if 0 <= i < rs.remotes.len() && rs.remotes[i] == leader_peer {
        assert(rs.remotes.contains(leader_peer));
    }
}

// The clock

/// With a clock, the first attempt starts, and uses that clock.
pub proof fn law_first_attempt_uses_the_clock(
    rs: ReplicaSetView,
    update: Update,
    clock_id: u32,
    step: UpdateStep,
)
    requires
        rs.steps_to(update, UpdateEvent::ClockAcquired { clock_id }, step),
    ensures
        step.action is ReadReplicas,
        step.update.phase matches UpdatePhase::ReadingReplicas { attempt } && attempt.number == 1
            && attempt.clock_id == clock_id,
        step.advance_clock_to is None,
        step.deactivations@.len() == 0,
{
}

/// Without a clock in time, the client is told how long it waited.
pub proof fn law_missing_clock_is_a_timeout(rs: ReplicaSetView, update: Update, step: UpdateStep)
    requires
        rs.steps_to(update, UpdateEvent::ClockTimedOut, step),
    ensures
        step.update.phase is Finished,
        step.deactivations@.len() == 0,
        step.action matches UpdateAction::Finish(
            Err(CollectionError::Timeout { timeout, description }),
        ) && {
            &&& update.request.timeout matches Some(asked) ==> {
                &&& timeout@ == asked@
                &&& description@ == "Failed to acquire clock for update operation within "@ + (
                "Some("@ + duration_debug(asked@.0, asked@.1) + ")"@)
            }
            &&& update.request.timeout is None ==> {
                &&& timeout@ == (u64::MAX, 999_999_999u32)
                &&& description@ == "Failed to acquire clock for update operation within "@
                    + "None"@
            }
        },
{
}

// One attempt

/// Once the replicas are read, an attempt goes on exactly if some replica can be updated: with the
/// write ordering lock if the update is ordered, and with the tick of its clock if it is not.
/// Otherwise the client is told that no replica is active.
pub proof fn law_attempt_needs_a_replica(
    rs: ReplicaSetView,
    update: Update,
    attempt: Attempt,
    step: UpdateStep,
)
    requires
        update.phase == (UpdatePhase::ReadingReplicas { attempt }),
        rs.steps_to(update, UpdateEvent::ReplicasRead, step),
    ensures
        step.advance_clock_to is None,
        step.deactivations@.len() == 0,
        ({
            let possible = {
                ||| exists|i: int|
                    0 <= i < rs.remotes.len() && rs.is_peer_updatable(#[trigger] rs.remotes[i])
                ||| rs.has_local && rs.is_peer_updatable(rs.this_peer_id)
            };
            &&& possible && update.request.ordering == WriteOrdering::Weak ==> {
                &&& step.action is TickClock
                &&& step.update.phase matches UpdatePhase::Ticking { attempt: same, .. }
                &&& same == attempt
            }
            &&& possible && update.request.ordering != WriteOrdering::Weak ==> {
                &&& step.action is LockOrder
                &&& step.update.phase matches UpdatePhase::LockingOrder { attempt: same, .. }
                &&& same == attempt
            }
            &&& !possible ==> {
                &&& step.update.phase is Finished
                &&& step.action matches UpdateAction::Finish(
                    Err(CollectionError::ServiceError { error }),
                )
                &&& error@ == "The replica set for shard "@ + decimal(rs.shard_id as nat)
                    + " on peer "@ + decimal(rs.this_peer_id as nat) + " has no active replica"@
            }
        }),
{
    law_update_needs_one_updatable_replica(rs);
}

/// An ordered update ticks its clock right after it took the write ordering lock, and gives the
/// lock back right after the tick.
pub proof fn law_lock_tick_unlock(
    rs: ReplicaSetView,
    update: Update,
    event: UpdateEvent,
    step: UpdateStep,
)
    requires
        rs.steps_to(update, event, step),
    ensures
        event is OrderLocked ==> step.action is TickClock,
        event is Ticked && update.request.ordering != WriteOrdering::Weak
            ==> step.action is UnlockOrder,
        event is Ticked && update.request.ordering == WriteOrdering::Weak ==> step.action is Dispatch
            || step.action is CheckRateLimit,
        event is OrderUnlocked ==> step.action is Dispatch || step.action is CheckRateLimit,
        step.action is LockOrder ==> event is ReplicasRead && update.request.ordering
            != WriteOrdering::Weak,
        step.action is UnlockOrder ==> event is Ticked,
{
}

/// The rate limiter decides whether an update that it was asked for is sent: a refusal is handed
/// to the client as it is, and without one the update is sent as it was planned.
pub proof fn law_rate_limiter_decides(
    rs: ReplicaSetView,
    update: Update,
    attempt: Attempt,
    replicas: ReplicaCount,
    dispatch: Dispatch,
    checked: Result<(), ReplicaError>,
    step: UpdateStep,
)
    requires
        update.phase == (UpdatePhase::CheckingRateLimit { attempt, replicas, dispatch }),
        rs.steps_to(update, UpdateEvent::RateLimitChecked(checked), step),
    ensures
        step.advance_clock_to is None,
        step.deactivations@.len() == 0,
        checked matches Err(refusal) ==> step.action == UpdateAction::Finish(
            Err(CollectionError::Replica(refusal)),
        ) && step.update.phase is Finished,
        checked is Ok ==> step.action == UpdateAction::Dispatch(dispatch) && step.update.phase == (
        UpdatePhase::Dispatching { attempt, replicas, clock_tag: dispatch.clock_tag }),
{
}

// What steps keep, and what they wait for

/// No step changes what the client asked for or how hardware usage is measured, and a step is
/// only ever taken on an event that the update waits for.
pub proof fn law_steps_keep_the_request(
    rs: ReplicaSetView,
    update: Update,
    event: UpdateEvent,
    step: UpdateStep,
)
    requires
        rs.steps_to(update, event, step),
    ensures
        step.update.request == update.request,
        step.update.disposable_hw_measurement == update.disposable_hw_measurement,
        update.spec_awaits(event),
{
}

/// An update waits for what can come of the action that it asked for, and for nothing else.
pub open spec fn waits_for_its_action(step: UpdateStep, event: UpdateEvent) -> bool {
    step.update.spec_awaits(event) <==> match step.action {
        UpdateAction::Forward { .. } => event is Forwarded || event is LeaderRemoved,
        UpdateAction::AcquireClock { .. } => event is ClockAcquired || event is ClockTimedOut,
        UpdateAction::ReadReplicas => event is ReplicasRead,
        UpdateAction::LockOrder => event is OrderLocked,
        UpdateAction::TickClock => event is Ticked,
        UpdateAction::UnlockOrder => event is OrderUnlocked,
        UpdateAction::CheckRateLimit => event is RateLimitChecked,
        UpdateAction::Dispatch(_) => event is Replied,
        UpdateAction::AwaitDeactivation { .. } => event is DeactivationAwaited,
        UpdateAction::Finish(_) => false,
    }
}

/// After every step, an update waits exactly for what can come of the action that it asked for.
pub proof fn law_actions_are_waited_for(
    rs: ReplicaSetView,
    update: Update,
    event: UpdateEvent,
    step: UpdateStep,
    next: UpdateEvent,
)
    requires
        rs.steps_to(update, event, step),
    ensures
        waits_for_its_action(step, next),
{
}

/// The same holds of its first step.
pub proof fn law_first_action_is_waited_for(
    rs: ReplicaSetView,
    request: UpdateRequest,
    step: UpdateStep,
    next: UpdateEvent,
)
    requires
        rs.starts(request, step),
    ensures
        waits_for_its_action(step, next),
{
}

/// Only the answers of replicas or of the leader deactivate anything, and only the answers of
/// replicas advance the clock.
pub proof fn law_only_answers_have_effects(
    rs: ReplicaSetView,
    update: Update,
    event: UpdateEvent,
    step: UpdateStep,
)
    requires
        rs.steps_to(update, event, step),
    ensures
        step.advance_clock_to is Some ==> event is Replied,
        step.deactivations@.len() > 0 ==> event is Replied || event is Forwarded
            || event is LeaderRemoved,
{
}

// What is sent out

/// Whether what a run sends out at `k` stems from the replicas that it read at `r`, the tick that
/// it got at `t`, and the replica set as it was at `s`.
pub open spec fn stems_from(
    start: Update,
    run: Seq<Transition>,
    dispatch: Dispatch,
    k: int,
    r: int,
    t: int,
    s: int,
) -> bool {
    let read = run[r].replica_set;
    let seen = run[s].replica_set;
    &&& 0 <= r < t <= s <= k < run.len()
    // The replicas are those of the last reading
    &&& run[r].event is ReplicasRead
    &&& forall|j: int| r < j <= k ==> !((#[trigger] run[j]).event is ReplicasRead)
    // All remote replicas that could be updated then are sent the operation, and no others
    &&& dispatch.remotes@ == read.remotes.filter(
        |p: PeerId|
            read.peers.dom().contains(p) && !read.locally_disabled.contains(p) && read.peers[p]
                != ReplicaState::Dead && read.state_rules.updatable.has(read.peers[p]),
    )
    &&& dispatch.hook == read.ordered_write_remote_update_hook
    // The tag is that of the last tick
    &&& forall|j: int| t < j <= k ==> !((#[trigger] run[j]).event is Ticked)
    &&& run[t].event matches UpdateEvent::Ticked { clock_tick, token }
    &&& dispatch.clock_tag.clock_tick == clock_tick
    &&& dispatch.clock_tag.token == token
    &&& dispatch.clock_tag.peer_id == run[t].replica_set.this_peer_id
    &&& !dispatch.clock_tag.force
    // The local replica takes part as it can right before
    &&& dispatch.local == seen.local_dispatch(read.has_local, start.request.wait)
    &&& dispatch.concurrency == seen.update_concurrency
    &&& dispatch.wait == start.request.wait
    &&& dispatch.timeout == start.request.timeout
    // The rate limiter of an active replica has let the operation pass
    &&& (dispatch.local matches Some(local) && local.check_rate_limit) <==> s < k
    &&& s < k ==> (run[k].event matches UpdateEvent::RateLimitChecked(checked) && checked is Ok)
    // The answers are counted against all replicas that were there then
    &&& run[k].step.update.phase matches UpdatePhase::Dispatching { replicas, clock_tag, .. }
    &&& clock_tag == dispatch.clock_tag
    &&& replicas.local == read.has_local
    &&& read.remotes.len() <= usize::MAX ==> replicas.remotes == read.remotes.len()
}

proof fn lemma_link(start: Update, run: Seq<Transition>, i: int)
    requires
        is_run(start, run),
        0 <= i < run.len(),
    ensures
        can_make(update_before(start, run, i), run[i]),
        i == 0 ==> update_before(start, run, i) == start,
        i > 0 ==> update_before(start, run, i) == run[i - 1].step.update,
{
    assert(can_make(update_before(start, run, i), run[i]));
}

proof fn lemma_same_request(start: Update, run: Seq<Transition>, i: int)
    requires
        is_run(start, run),
        0 <= i <= run.len(),
    ensures
        update_before(start, run, i).request == start.request,
    decreases i,
{
    if i > 0 {
        lemma_same_request(start, run, i - 1);
        lemma_link(start, run, i - 1);
    }
}

/// Where the targets of an attempt come from, before its clock ticks.
proof fn lemma_targets_source(
    start: Update,
    run: Seq<Transition>,
    t: int,
    targets: UpdateTargets,
) -> (r: int)
    requires
        is_run(start, run),
        start.phase is AcquiringClock,
        0 <= t < run.len(),
        update_before(start, run, t).phase matches UpdatePhase::Ticking { targets: held, .. }
            && held == targets,
    ensures
        0 <= r < t,
        run[r].event is ReplicasRead,
        forall|j: int| r < j <= t ==> !((#[trigger] run[j]).event is ReplicasRead),
        run[r].replica_set.are_targets(targets),
{
    lemma_link(start, run, t);
    lemma_link(start, run, t - 1);
    if run[t - 1].event is ReplicasRead {
        t - 1
    } else {
        assert(run[t - 1].event is OrderLocked);
        lemma_link(start, run, t - 2);
        assert(run[t - 2].event is ReplicasRead);
        t - 2
    }
}

/// Whenever an update that this peer leads is sent out, in whichever attempt, all remote replicas
/// are sent it that could be updated when the attempt read the replicas, in order, whether or not
/// the local replica takes part or its rate limiter was asked. It carries the last tick that the
/// clock gave out, and is waited for as the client asked.
pub proof fn law_update_is_sent_to_all_updatable_replicas(
    start: Update,
    run: Seq<Transition>,
    k: int,
    dispatch: Dispatch,
)
    requires
        start.phase is AcquiringClock,
        is_run(start, run),
        0 <= k < run.len(),
        run[k].step.action == UpdateAction::Dispatch(dispatch),
    ensures
        exists|r: int, t: int, s: int| #[trigger] stems_from(start, run, dispatch, k, r, t, s),
{
    lemma_link(start, run, k);
    lemma_same_request(start, run, k);
    let asked = run[k].event is RateLimitChecked;
    let s = if asked {
        k - 1
    } else {
        k
    };
    if asked {
        lemma_link(start, run, k - 1);
        lemma_same_request(start, run, k - 1);
    }
    let t = if run[s].event is OrderUnlocked {
        s - 1
    } else {
        s
    };
    if run[s].event is OrderUnlocked {
        lemma_link(start, run, s - 1);
        lemma_same_request(start, run, s - 1);
    }
    assert(run[t].event is Ticked);
    let before = update_before(start, run, t);
    assert(before.phase is Ticking);
    let targets = before.phase->Ticking_targets;
    let r = lemma_targets_source(start, run, t, targets);
    law_targets_are_the_updatable_remotes(run[r].replica_set, targets);
    assert forall|j: int| t < j <= k implies !((#[trigger] run[j]).event is Ticked) && !(
    run[j].event is ReplicasRead) by {
        assert(j == s || j == k);
    }
    assert(stems_from(start, run, dispatch, k, r, t, s));
}

/// A remote replica that could be updated when an attempt read the replicas is sent the
/// operation.
pub proof fn law_updatable_remote_is_sent_the_update(
    start: Update,
    run: Seq<Transition>,
    k: int,
    dispatch: Dispatch,
    r: int,
    peer_id: PeerId,
)
    requires
        start.phase is AcquiringClock,
        is_run(start, run),
        0 <= r < k < run.len(),
        run[k].step.action == UpdateAction::Dispatch(dispatch),
        run[r].event is ReplicasRead,
        forall|j: int| r < j <= k ==> !((#[trigger] run[j]).event is ReplicasRead),
    ensures
        run[r].replica_set.remotes.contains(peer_id) && run[r].replica_set.is_peer_updatable(
            peer_id,
        ) <==> dispatch.remotes@.contains(peer_id),
{
    law_update_is_sent_to_all_updatable_replicas(start, run, k, dispatch);
    let (r2, t, s) = choose|r2: int, t: int, s: int| #[trigger]
        stems_from(start, run, dispatch, k, r2, t, s);
    assert(r2 == r) by {
        if r2 < r {
            assert(!(run[r].event is ReplicasRead));
        }
        if r < r2 {
            assert(!(run[r2].event is ReplicasRead));
        }
    }
    let read = run[r].replica_set;
    let direct = |p: PeerId|
        read.peers.dom().contains(p) && !read.locally_disabled.contains(p) && read.peers[p]
            != ReplicaState::Dead && read.state_rules.updatable.has(read.peers[p]);
    let chosen = read.remotes.filter(direct);
    assert(dispatch.remotes@ =~= chosen);
    if read.remotes.contains(peer_id) && read.is_peer_updatable(peer_id) {
        let i = choose|i: int| 0 <= i < read.remotes.len() && read.remotes[i] == peer_id;
        read.remotes.lemma_filter_contains(direct, i);
    }
    if chosen.contains(peer_id) {
        let i = choose|i: int| 0 <= i < chosen.len() && chosen[i] == peer_id;
        read.remotes.lemma_filter_pred(direct, i);
        read.remotes.lemma_filter_contains_rev(direct, peer_id);
    }
}

/// Replies are only judged right after the operation was sent out.
pub proof fn law_replies_follow_on_a_dispatch(start: Update, run: Seq<Transition>, k: int)
    requires
        start.phase is AcquiringClock,
        is_run(start, run),
        0 <= k < run.len(),
        run[k].event is Replied,
    ensures
        k > 0,
        run[k - 1].step.action is Dispatch,
{
    lemma_link(start, run, k);
    if k > 0 {
        lemma_link(start, run, k - 1);
    }
}

/// The clock of the attempt that an update is in, if it is in one.
pub open spec fn clock_of(phase: UpdatePhase) -> Option<u32> {
    match phase {
        UpdatePhase::ReadingReplicas { attempt }
        | UpdatePhase::LockingOrder { attempt, .. }
        | UpdatePhase::Ticking { attempt, .. }
        | UpdatePhase::UnlockingOrder { attempt, .. }
        | UpdatePhase::CheckingRateLimit { attempt, .. }
        | UpdatePhase::Dispatching { attempt, .. }
        | UpdatePhase::Deactivating { attempt, .. } => Some(attempt.clock_id),
        UpdatePhase::Forwarding { .. } | UpdatePhase::AcquiringClock | UpdatePhase::Finished =>
            None,
    }
}

/// All attempts of an update use the clock that was acquired at its start, and everything that it
/// sends out is tagged with that clock.
pub proof fn law_all_attempts_share_one_clock(
    start: Update,
    run: Seq<Transition>,
    clock_id: u32,
    k: int,
)
    requires
        start.phase is AcquiringClock,
        is_run(start, run),
        0 <= k < run.len(),
        run[0].event == (UpdateEvent::ClockAcquired { clock_id }),
    ensures
        !(run[k].step.update.phase is AcquiringClock),
        clock_of(run[k].step.update.phase) matches Some(clock) ==> clock == clock_id,
        run[k].step.update.phase matches UpdatePhase::UnlockingOrder { clock_tag, .. }
            ==> clock_tag.clock_id == clock_id,
        run[k].step.update.phase matches UpdatePhase::CheckingRateLimit { dispatch, .. }
            ==> dispatch.clock_tag.clock_id == clock_id,
        run[k].step.action matches UpdateAction::Dispatch(dispatch) ==> dispatch.clock_tag.clock_id
            == clock_id,
    decreases k,
{
    lemma_link(start, run, k);
    if k > 0 {
        law_all_attempts_share_one_clock(start, run, clock_id, k - 1);
    }
}

} // verus!
