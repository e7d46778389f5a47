//! What holds of updates as a whole.

use vstd::prelude::*;
use crate::attempt::{
    transient_failures, Accepted, Assessment, Decision, ReplicaCount, UpdateTargets,
};
use crate::duration::Duration;
use crate::failures::{deactivated_peers, Deactivation};
use crate::local::LocalUpdate;
use crate::merge::{
    any_completed, failures_of, is_from_highest_peer, is_merge_of, successes_of, Reply,
};
use crate::replica_set::ReplicaSetView;
use crate::types::{ClockTag, PeerId, ReplicaError, UpdateResult, WriteOrdering};

verus! {

// Leaders

/// At most one peer leads the updates of an ordering.
pub proof fn law_leader_is_unique(
    rs: ReplicaSetView,
    ordering: WriteOrdering,
    a: Option<PeerId>,
    b: Option<PeerId>,
)
    requires
        rs.is_leader_for(ordering, a),
        rs.is_leader_for(ordering, b),
    ensures
        a == b,
{
}

/// Peers that know of the same replicas send strongly ordered updates through the same leader.
pub proof fn law_strong_leader_is_agreed_on(
    one: ReplicaSetView,
    other: ReplicaSetView,
    a: Option<PeerId>,
    b: Option<PeerId>,
)
    requires
        one.peers.dom() == other.peers.dom(),
        one.is_leader_for(WriteOrdering::Strong, a),
        other.is_leader_for(WriteOrdering::Strong, b),
    ensures
        a == b,
{
}

/// Peers that hold the same replicas to be alive send updates of medium order through the same
/// leader.
pub proof fn law_medium_leader_is_agreed_on(
    one: ReplicaSetView,
    other: ReplicaSetView,
    a: Option<PeerId>,
    b: Option<PeerId>,
)
    requires
        one.alive_peers() == other.alive_peers(),
        one.is_leader_for(WriteOrdering::Medium, a),
        other.is_leader_for(WriteOrdering::Medium, b),
    ensures
        a == b,
{
}

/// The leader of medium order is a trusted source of truth, and never above the strong leader.
pub proof fn law_medium_leader_is_alive(
    rs: ReplicaSetView,
    medium: PeerId,
    strong: Option<PeerId>,
)
    requires
        rs.is_leader_for(WriteOrdering::Medium, Some(medium)),
        rs.is_leader_for(WriteOrdering::Strong, strong),
    ensures
        rs.peer_can_be_source_of_truth(medium),
        strong is Some,
        medium <= strong->0,
{
    assert(rs.alive_peers().contains(medium));
    assert(rs.peers.dom().contains(medium));
}

// Replicas that are updated

/// A replica that is dead, locally disabled or unknown is never among the targets of an update.
pub proof fn law_dead_or_disabled_replica_is_not_updated(
    rs: ReplicaSetView,
    targets: UpdateTargets,
    wait: bool,
    peer_id: PeerId,
)
    requires
        rs.are_targets(targets),
        rs.peer_state(peer_id) is None || rs.peers[peer_id] is Dead || rs.is_locally_disabled(
            peer_id,
        ),
    ensures
        !targets.remotes@.contains(peer_id),
        peer_id == rs.this_peer_id ==> rs.local_dispatch(targets.replicas.local, wait) is None,
{
    let updatable = |p: PeerId| rs.is_peer_updatable(p);
    if targets.remotes@.contains(peer_id) {
        let i = choose|i: int| 0 <= i < targets.remotes@.len() && targets.remotes@[i] == peer_id;
        rs.remotes.lemma_filter_pred(updatable, i);
    }
}

/// Every replica that can be updated, remote or local, is among the targets of an update.
pub proof fn law_every_updatable_replica_is_updated(
    rs: ReplicaSetView,
    targets: UpdateTargets,
    wait: bool,
    peer_id: PeerId,
)
    requires
        rs.are_targets(targets),
        rs.is_peer_updatable(peer_id),
    ensures
        rs.remotes.contains(peer_id) ==> targets.remotes@.contains(peer_id),
        rs.has_local && peer_id == rs.this_peer_id ==> rs.local_dispatch(
            targets.replicas.local,
            wait,
        ) is Some,
{
    let updatable = |p: PeerId| rs.is_peer_updatable(p);
    if rs.remotes.contains(peer_id) {
        let i = choose|i: int| 0 <= i < rs.remotes.len() && rs.remotes[i] == peer_id;
        rs.remotes.lemma_filter_contains(updatable, i);
    }
}

/// A forced update is applied to a known local replica unconditionally: no matter its state and
/// whatever its rate limiter would answer, and it is waited for as the caller asked.
pub proof fn law_forced_update_is_taken(
    rs: ReplicaSetView,
    clock_tag: Option<ClockTag>,
    wait: bool,
    timeout: Option<Duration>,
    disposable: bool,
    checked: Result<(), ReplicaError>,
)
    requires
        rs.has_local,
        rs.peers.contains_key(rs.this_peer_id),
    ensures
        rs.takes_local_update(clock_tag, true),
        rs.local_update(clock_tag, wait, timeout, disposable, true) matches Some(update) && {
            &&& update.wait == wait
            &&& update.timeout == timeout
            &&& !update.check_rate_limit
            &&& update.admitted(checked) == Ok::<LocalUpdate, ReplicaError>(update)
        },
{
}

/// An unforced update that the rate limiter of an active replica refuses is not applied, and the
/// refusal is handed on.
pub proof fn law_refused_local_update_is_not_applied(
    rs: ReplicaSetView,
    clock_tag: Option<ClockTag>,
    wait: bool,
    timeout: Option<Duration>,
    disposable: bool,
    refusal: ReplicaError,
)
    requires
        rs.has_local,
        rs.peers.contains_key(rs.this_peer_id),
        rs.peers[rs.this_peer_id] is Active,
    ensures
        rs.local_update(clock_tag, wait, timeout, disposable, false) matches Some(update) && {
            &&& update.check_rate_limit
            &&& update.admitted(Err(refusal)) == Err::<LocalUpdate, ReplicaError>(refusal)
        },
{
}

/// A replica that is not active never asks its rate limiter, and an update to it does not depend
/// on what the limiter would answer.
pub proof fn law_only_active_replica_limits_the_rate(
    rs: ReplicaSetView,
    clock_tag: Option<ClockTag>,
    wait: bool,
    timeout: Option<Duration>,
    disposable: bool,
    force: bool,
    checked: Result<(), ReplicaError>,
)
    requires
        !(rs.peers[rs.this_peer_id] is Active),
    ensures
        rs.local_update(clock_tag, wait, timeout, disposable, force) matches Some(update) ==> {
            &&& !update.check_rate_limit
            &&& update.admitted(checked) == Ok::<LocalUpdate, ReplicaError>(update)
        },
{
}

/// A replica in recovery takes exactly those unforced updates whose clock tag is forced.
pub proof fn law_recovering_replica_needs_forced_tag(
    rs: ReplicaSetView,
    clock_tag: Option<ClockTag>,
)
    requires
        rs.has_local,
        rs.peers.contains_key(rs.this_peer_id),
        rs.peers[rs.this_peer_id] is Recovery || rs.peers[rs.this_peer_id] is PartialSnapshot,
    ensures
        rs.takes_local_update(clock_tag, false) <==> (clock_tag is Some && clock_tag->0.force),
{
}

/// A listener is not waited for, neither by an update sent to it directly nor by one that its
/// own peer leads, unless the update is forced upon it.
pub proof fn law_listener_is_not_waited_for(
    rs: ReplicaSetView,
    clock_tag: Option<ClockTag>,
    wait: bool,
    timeout: Option<Duration>,
    disposable: bool,
    local: bool,
)
    requires
        rs.peers.contains_key(rs.this_peer_id),
        rs.peers[rs.this_peer_id] is Listener,
    ensures
        rs.local_update(clock_tag, wait, timeout, disposable, false) matches Some(update)
            ==> !update.wait && update.timeout is None,
        rs.local_dispatch(local, wait) matches Some(dispatch) ==> !dispatch.wait,
{
}

// Answers

/// Answers are summed up in one way only.
pub proof fn law_merge_is_unique(
    successes: Seq<(PeerId, UpdateResult)>,
    a: UpdateResult,
    b: UpdateResult,
)
    requires
        is_merge_of(a, successes),
        is_merge_of(b, successes),
    ensures
        a == b,
{
    let i = choose|k: int|
        is_from_highest_peer(successes, k) && a == (UpdateResult {
            status: a.status,
            ..(#[trigger] successes[k]).1
        });
    let j = choose|k: int|
        is_from_highest_peer(successes, k) && b == (UpdateResult {
            status: b.status,
            ..(#[trigger] successes[k]).1
        });
    assert(successes[i].0 <= successes[j].0 && successes[j].0 <= successes[i].0);
    assert(i == j);
    let at_a = choose|k: int|
        0 <= k < successes.len() && (#[trigger] successes[k]).1.status == a.status;
    let at_b = choose|k: int|
        0 <= k < successes.len() && (#[trigger] successes[k]).1.status == b.status;
    assert(successes[at_a].1.status.priority() <= b.status.priority());
    assert(successes[at_b].1.status.priority() <= a.status.priority());
}

/// Which answer the client gets does not depend on the order in which the replicas answer.
pub proof fn law_merge_ignores_the_order_of_answers(
    one: Seq<(PeerId, UpdateResult)>,
    other: Seq<(PeerId, UpdateResult)>,
    a: UpdateResult,
    b: UpdateResult,
)
    requires
        one.to_multiset() == other.to_multiset(),
        forall|i: int, j: int|
            0 <= i < j < one.len() ==> (#[trigger] one[i]).0 != (#[trigger] one[j]).0,
        is_merge_of(a, one),
        is_merge_of(b, other),
    ensures
        a == b,
{
    one.to_multiset_ensures();
    other.to_multiset_ensures();
    assert forall|x: (PeerId, UpdateResult)| one.contains(x) == other.contains(x) by {
        assert(one.contains(x) <==> one.to_multiset().count(x) > 0);
        assert(other.contains(x) <==> other.to_multiset().count(x) > 0);
    }
    let i = choose|k: int|
        is_from_highest_peer(one, k) && a == (UpdateResult {
            status: a.status,
            ..(#[trigger] one[k]).1
        });
    let j = choose|k: int|
        is_from_highest_peer(other, k) && b == (UpdateResult {
            status: b.status,
            ..(#[trigger] other[k]).1
        });
    assert(other.contains(one[i]));
    assert(one.contains(other[j]));
    let i2 = choose|k: int| 0 <= k < other.len() && other[k] == one[i];
    let j2 = choose|k: int| 0 <= k < one.len() && one[k] == other[j];
    assert(other[i2].0 <= other[j].0);
    assert(one[j2].0 <= one[i].0);
    assert(one[i] == one[j2]);
    let at_a = choose|k: int| 0 <= k < one.len() && (#[trigger] one[k]).1.status == a.status;
    let at_b = choose|k: int| 0 <= k < other.len() && (#[trigger] other[k]).1.status == b.status;
    assert(other.contains(one[at_a]));
    assert(one.contains(other[at_b]));
    let at_a2 = choose|k: int| 0 <= k < other.len() && other[k] == one[at_a];
    let at_b2 = choose|k: int| 0 <= k < one.len() && one[k] == other[at_b];
    assert(other[at_a2].1.status.priority() <= b.status.priority());
    assert(one[at_b2].1.status.priority() <= a.status.priority());
}

/// One replica that did not apply the update in time is enough for the client to learn of it.
pub proof fn law_wait_timeout_dominates(
    successes: Seq<(PeerId, UpdateResult)>,
    merged: UpdateResult,
    i: int,
)
    requires
        is_merge_of(merged, successes),
        0 <= i < successes.len(),
        successes[i].1.status is WaitTimeout,
    ensures
        merged.status is WaitTimeout,
{
    assert(successes[i].1.status.priority() <= merged.status.priority());
}

/// A rejection because of the clock is never handed to the client.
pub proof fn law_clock_rejection_is_never_answered(
    rs: ReplicaSetView,
    accepted: Accepted,
    merged: UpdateResult,
)
    requires
        rs.concludes_to(accepted, Ok(Some(merged))),
    ensures
        !(merged.status is ClockRejected),
{
    let successes = accepted.successes@;
    let at = choose|k: int|
        0 <= k < successes.len() && (#[trigger] successes[k]).1.status == merged.status;
    assert(!(successes[at].1.status is ClockRejected));
}

// Failures

/// A replica that is dead, listens only or waits for an operator is never deactivated, and
/// neither is one that did not fail.
pub proof fn law_only_failed_replicas_are_deactivated(
    rs: ReplicaSetView,
    failures: Seq<(PeerId, ReplicaError)>,
    update_only_existing: bool,
    deactivation: Deactivation,
)
    requires
        rs.deactivations(failures, update_only_existing).contains(deactivation),
    ensures
        exists|i: int|
            0 <= i < failures.len() && (#[trigger] failures[i]).0 == deactivation.peer_id,
        rs.peers.contains_key(deactivation.peer_id),
        !rs.peers[deactivation.peer_id].ignores_failures(),
        deactivation.from_state == rs.deactivated_from(deactivation.peer_id),
{
    let choice = |failure: (PeerId, ReplicaError)| rs.deactivation(failure, update_only_existing);
    failures.lemma_filter_map_contains(choice, deactivation);
    let failure = choose|failure: (PeerId, ReplicaError)| #[trigger]
        failures.contains(failure) && choice(failure) == Some(deactivation);
    let i = choose|i: int| 0 <= i < failures.len() && failures[i] == failure;
    assert(failures[i].0 == deactivation.peer_id);
}

/// A replica that is deactivated is not trusted from then on: it is sent no updates, does not
/// count as active or as resharding, and is no source of truth.
pub proof fn law_deactivated_replica_is_not_trusted(
    rs: ReplicaSetView,
    deactivations: Seq<Deactivation>,
    i: int,
)
    requires
        0 <= i < deactivations.len(),
    ensures
        !rs.disabling(deactivations).is_peer_updatable(deactivations[i].peer_id),
        !rs.disabling(deactivations).peer_is_active(deactivations[i].peer_id),
        !rs.disabling(deactivations).peer_is_resharding(deactivations[i].peer_id),
        !rs.disabling(deactivations).peer_can_be_source_of_truth(deactivations[i].peer_id),
{
    assert(deactivated_peers(deactivations).contains(deactivations[i].peer_id));
}

/// A failure that has to be acted upon deactivates its replica.
proof fn lemma_failure_is_deactivated(
    rs: ReplicaSetView,
    failures: Seq<(PeerId, ReplicaError)>,
    update_only_existing: bool,
    i: int,
)
    requires
        0 <= i < failures.len(),
        rs.must_deactivate(failures[i], update_only_existing),
    ensures
        rs.deactivations(failures, update_only_existing).contains(
            Deactivation {
                peer_id: failures[i].0,
                from_state: rs.deactivated_from(failures[i].0),
            },
        ),
    decreases failures.len(),
{
    let choice = |failure: (PeerId, ReplicaError)| rs.deactivation(failure, update_only_existing);
    let found = Deactivation {
        peer_id: failures[i].0,
        from_state: rs.deactivated_from(failures[i].0),
    };
    let rest = failures.drop_last();
    let all = failures.filter_map(choice);
    if i == failures.len() - 1 {
        assert(all == rest.filter_map(choice) + seq![found]);
        assert(all[all.len() - 1] == found);
    } else {
        lemma_failure_is_deactivated(rs, rest, update_only_existing, i);
        let k = choose|k: int|
            0 <= k < rest.filter_map(choice).len() && rest.filter_map(choice)[k] == found;
        assert(all[k] == found);
    }
}

/// Once some replica has applied an accepted update in full, every replica that failed and
/// whose failure is not excused is deactivated.
pub proof fn law_applied_update_leaves_no_failure_behind(
    rs: ReplicaSetView,
    replies: Seq<Reply>,
    replicas: ReplicaCount,
    clock_tag: ClockTag,
    wait: bool,
    update_only_existing: bool,
    assessment: Assessment,
    i: int,
)
    requires
        rs.assesses_to(replies, replicas, clock_tag, wait, update_only_existing, assessment),
        !(assessment.decision is Failed),
        any_completed(successes_of(replies)),
        0 <= i < failures_of(replies).len(),
        rs.must_deactivate(failures_of(replies)[i], update_only_existing),
    ensures
        assessment.deactivations@.contains(
            Deactivation {
                peer_id: failures_of(replies)[i].0,
                from_state: rs.deactivated_from(failures_of(replies)[i].0),
            },
        ),
{
    lemma_failure_is_deactivated(rs, failures_of(replies), update_only_existing, i);
}

/// As long as no replica has applied an accepted update in full, only replicas whose failure
/// may pass by itself are deactivated.
pub proof fn law_unapplied_update_only_deactivates_transient_failures(
    rs: ReplicaSetView,
    replies: Seq<Reply>,
    replicas: ReplicaCount,
    clock_tag: ClockTag,
    wait: bool,
    update_only_existing: bool,
    assessment: Assessment,
    deactivation: Deactivation,
)
    requires
        rs.assesses_to(replies, replicas, clock_tag, wait, update_only_existing, assessment),
        !(assessment.decision is Failed),
        !any_completed(successes_of(replies)),
        assessment.deactivations@.contains(deactivation),
    ensures
        exists|i: int|
            {
                &&& 0 <= i < failures_of(replies).len()
                &&& (#[trigger] failures_of(replies)[i]).0 == deactivation.peer_id
                &&& failures_of(replies)[i].1.transient
            },
{
    let failures = failures_of(replies);
    let transient = |failure: (PeerId, ReplicaError)| failure.1.transient;
    if !rs.enough_successes(successes_of(replies), replicas) {
        assert(failures.len() == 0);
        assert(rs.resharding_failures(failures, update_only_existing) =~= Seq::empty());
        assert(assessment.deactivations@ =~= Seq::empty());
    } else {
        let handled = transient_failures(failures);
        law_only_failed_replicas_are_deactivated(
            rs,
            handled,
            update_only_existing,
            deactivation,
        );
        let k = choose|k: int|
            0 <= k < handled.len() && (#[trigger] handled[k]).0 == deactivation.peer_id;
        failures.lemma_filter_pred(transient, k);
        assert(failures.filter(transient).contains(handled[k]));
        failures.lemma_filter_contains_rev(transient, handled[k]);
        let i = choose|i: int| 0 <= i < failures.len() && failures[i] == handled[k];
        assert(failures[i].0 == deactivation.peer_id);
    }
}

/// The failures that are acted upon where too few replicas took an update are those of replicas
/// that take part in a resharding, and deactivate each of them once at most.
proof fn lemma_resharding_failures(
    rs: ReplicaSetView,
    failures: Seq<(PeerId, ReplicaError)>,
    update_only_existing: bool,
)
    ensures
        ({
            let handled = rs.resharding_failures(failures, update_only_existing);
            let deactivations = rs.deactivations(handled, update_only_existing);
            &&& forall|k: int|
                0 <= k < handled.len() ==> rs.peer_is_resharding((#[trigger] handled[k]).0)
            &&& forall|i: int, j: int|
                0 <= i < j < deactivations.len() ==> (#[trigger] deactivations[i]).peer_id != (
                #[trigger] deactivations[j]).peer_id
        }),
    decreases failures.len(),
{
    if failures.len() > 0 {
        lemma_resharding_failures(rs, failures.drop_last(), update_only_existing);
        let kept = rs.resharding_failures(failures.drop_last(), update_only_existing);
        assert(kept.push(failures.last()).drop_last() =~= kept);
    }
}

/// If too few replicas took an update, only replicas that take part in a resharding are
/// deactivated.
pub proof fn law_failed_update_only_deactivates_resharding_replicas(
    rs: ReplicaSetView,
    replies: Seq<Reply>,
    replicas: ReplicaCount,
    clock_tag: ClockTag,
    wait: bool,
    update_only_existing: bool,
    assessment: Assessment,
    deactivation: Deactivation,
)
    requires
        rs.assesses_to(replies, replicas, clock_tag, wait, update_only_existing, assessment),
        assessment.decision is Failed,
        assessment.deactivations@.contains(deactivation),
    ensures
        rs.peer_is_resharding(deactivation.peer_id),
{
    let failures = failures_of(replies);
    let handled = rs.resharding_failures(failures, update_only_existing);
    law_only_failed_replicas_are_deactivated(rs, handled, update_only_existing, deactivation);
    lemma_resharding_failures(rs, failures, update_only_existing);
}

/// If too few replicas took an update, no replica is deactivated twice, however often it failed.
pub proof fn law_failed_update_deactivates_a_replica_once(
    rs: ReplicaSetView,
    replies: Seq<Reply>,
    replicas: ReplicaCount,
    clock_tag: ClockTag,
    wait: bool,
    update_only_existing: bool,
    assessment: Assessment,
    i: int,
    j: int,
)
    requires
        rs.assesses_to(replies, replicas, clock_tag, wait, update_only_existing, assessment),
        assessment.decision is Failed,
        0 <= i < j < assessment.deactivations@.len(),
    ensures
        assessment.deactivations@[i].peer_id != assessment.deactivations@[j].peer_id,
{
    lemma_resharding_failures(rs, failures_of(replies), update_only_existing);
}

/// A client that waits is not answered before the replicas are deactivated whose failure may
/// pass by itself: such a replica might answer again before the other peers learn of its
/// failure.
pub proof fn law_transient_failure_is_waited_for(
    rs: ReplicaSetView,
    replies: Seq<Reply>,
    replicas: ReplicaCount,
    clock_tag: ClockTag,
    update_only_existing: bool,
    assessment: Assessment,
    i: int,
)
    requires
        rs.assesses_to(replies, replicas, clock_tag, true, update_only_existing, assessment),
        !(assessment.decision is Failed),
        0 <= i < failures_of(replies).len(),
        failures_of(replies)[i].1.transient,
        rs.must_deactivate(failures_of(replies)[i], update_only_existing),
    ensures
        assessment.decision matches Decision::AwaitDeactivation { peer_ids, .. }
            && peer_ids@.contains(failures_of(replies)[i].0),
{
    let successes = successes_of(replies);
    let failures = failures_of(replies);
    let transient = |failure: (PeerId, ReplicaError)| failure.1.transient;
    let handled = rs.handled_failures(successes, failures, replicas, update_only_existing);
    if any_completed(successes) {
        assert(handled[i] == failures[i]);
        assert(handled.contains(failures[i]));
    } else {
        failures.lemma_filter_contains(transient, i);
    }
    let k = choose|k: int| 0 <= k < handled.len() && handled[k] == failures[i];
    assert(rs.holds_up(handled[k], update_only_existing));
    let peer_ids = handled.map_values(|failure: (PeerId, ReplicaError)| failure.0);
    assert(peer_ids[k] == failures[i].0);
}

/// An update with failures is only accepted if as many replicas took it as the write
/// consistency factor asks for, or all of them if there are fewer.
pub proof fn law_failures_need_a_quorum(
    rs: ReplicaSetView,
    replies: Seq<Reply>,
    replicas: ReplicaCount,
    clock_tag: ClockTag,
    wait: bool,
    update_only_existing: bool,
    assessment: Assessment,
)
    requires
        rs.assesses_to(replies, replicas, clock_tag, wait, update_only_existing, assessment),
    ensures
        assessment.decision is Failed <==> {
            &&& failures_of(replies).len() > 0
            &&& successes_of(replies).len() < rs.write_consistency_factor
            &&& successes_of(replies).len() < replicas.total()
        },
{
}

/// Every answer counts either as a success or as a failure.
pub proof fn law_every_answer_counts_once(replies: Seq<Reply>)
    ensures
        successes_of(replies).len() + failures_of(replies).len() == replies.len(),
    decreases replies.len(),
{
    if replies.len() > 0 {
        law_every_answer_counts_once(replies.drop_last());
    }
}

} // verus!
