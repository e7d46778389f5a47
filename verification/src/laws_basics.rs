//! What the questions mean that updates ask of states, peers and replica sets.

use vstd::prelude::*;
use crate::attempt::{ReplicaCount, UpdateTargets};
use crate::replica_set::{ReplicaSetView, ShardReplicaSet};
use crate::rules::StateSet;
use crate::text::{decimal, digit};
use crate::types::{
    CollectionError, CollectionErrorView, PeerId, ReplicaState, UpdateStatus, WriteOrdering,
};

verus! {

// States, orderings and statuses

/// A set of states marks each state by itself: marking one more state changes nothing for the
/// others, and each mark is the one of its state.
pub proof fn law_each_state_has_its_own_mark(set: StateSet, state: ReplicaState)
    ensures
        set.has(ReplicaState::Active) == set.active,
        set.has(ReplicaState::Dead) == set.dead,
        set.has(ReplicaState::Partial) == set.partial,
        set.has(ReplicaState::Initializing) == set.initializing,
        set.has(ReplicaState::Listener) == set.listener,
        set.has(ReplicaState::PartialSnapshot) == set.partial_snapshot,
        set.has(ReplicaState::Recovery) == set.recovery,
        set.has(ReplicaState::Resharding) == set.resharding,
        set.has(ReplicaState::ReshardingScaleDown) == set.resharding_scale_down,
        set.has(ReplicaState::ActiveRead) == set.active_read,
        set.has(ReplicaState::ManualRecovery) == set.manual_recovery,
        !(state is Active) ==> (StateSet { active: true, ..set }).has(state) == set.has(state),
        !(state is Dead) ==> (StateSet { dead: true, ..set }).has(state) == set.has(state),
{
}

/// A replica takes part in a resharding in two states, one for each direction.
pub proof fn law_two_states_are_resharding(state: ReplicaState)
    ensures
        state.is_resharding() <==> (state == ReplicaState::Resharding || state
            == ReplicaState::ReshardingScaleDown),
{
}

/// Updates are ordered unless they are weak.
pub proof fn law_only_weak_updates_are_unordered(ordering: WriteOrdering)
    ensures
        ordering.is_ordered() <==> ordering != WriteOrdering::Weak,
{
}

/// No two statuses have the same rank, and of any two the one that tells the client to be more
/// careful ranks higher: a rejection lowest, an update that was not applied in time highest.
pub proof fn law_statuses_are_ranked(a: UpdateStatus, b: UpdateStatus)
    ensures
        a.priority() == b.priority() ==> a == b,
        b is WaitTimeout ==> a.priority() <= b.priority(),
        a is ClockRejected ==> a.priority() <= b.priority(),
        a is Acknowledged && b is Completed ==> a.priority() < b.priority(),
{
}

// Peers

/// A peer is sent updates exactly if its replica is known, not dead, in a state that takes
/// updates, and the peer is trusted.
pub proof fn law_who_is_sent_updates(rs: ReplicaSetView, peer_id: PeerId)
    ensures
        !rs.peers.dom().contains(peer_id) ==> !rs.is_peer_updatable(peer_id),
        rs.locally_disabled.contains(peer_id) ==> !rs.is_peer_updatable(peer_id),
        rs.peers[peer_id] == ReplicaState::Dead ==> !rs.is_peer_updatable(peer_id),
        rs.peers.dom().contains(peer_id) && !rs.locally_disabled.contains(peer_id)
            && rs.peers[peer_id] != ReplicaState::Dead ==> rs.is_peer_updatable(peer_id)
            == rs.state_rules.updatable.has(rs.peers[peer_id]),
{
}

/// A peer counts as active, as resharding or as a source of truth only while its replica is
/// known and the peer is trusted; then its state alone decides.
pub proof fn law_what_trusted_peers_count_as(rs: ReplicaSetView, peer_id: PeerId)
    ensures
        !rs.peers.dom().contains(peer_id) || rs.locally_disabled.contains(peer_id) ==> {
            &&& !rs.peer_is_active(peer_id)
            &&& !rs.peer_is_resharding(peer_id)
            &&& !rs.peer_can_be_source_of_truth(peer_id)
        },
        rs.peers.dom().contains(peer_id) && !rs.locally_disabled.contains(peer_id) ==> {
            &&& rs.peer_is_active(peer_id) == (rs.peers[peer_id] == ReplicaState::Active)
            &&& rs.peer_is_resharding(peer_id) == (rs.peers[peer_id] == ReplicaState::Resharding
                || rs.peers[peer_id] == ReplicaState::ReshardingScaleDown)
            &&& rs.peer_can_be_source_of_truth(peer_id) == rs.state_rules.source_of_truth.has(
                rs.peers[peer_id],
            )
        },
{
}

/// The state of a peer is found exactly if its replica is known, and trust is kept per peer.
pub proof fn law_peer_state_is_looked_up(rs: ReplicaSetView, peer_id: PeerId)
    ensures
        rs.peer_state(peer_id) is Some <==> rs.peers.dom().contains(peer_id),
        rs.peer_state(peer_id) matches Some(state) ==> state == rs.peers[peer_id],
        rs.is_locally_disabled(peer_id) == rs.locally_disabled.contains(peer_id),
{
}

// Leaders

/// A weakly ordered update is led by the peer that was asked.
pub proof fn law_weak_leader(rs: ReplicaSetView, leader: Option<PeerId>)
    requires
        rs.is_leader_for(WriteOrdering::Weak, leader),
    ensures
        leader matches Some(l) && l == rs.this_peer_id,
{
}

/// A strongly ordered update is led by a peer that holds a replica and that no other such peer is
/// above, in whatever state it is; there is none only if there is no replica.
pub proof fn law_strong_leader(rs: ReplicaSetView, leader: Option<PeerId>, other: PeerId)
    requires
        rs.is_leader_for(WriteOrdering::Strong, leader),
    ensures
        leader matches Some(l) ==> rs.peers.dom().contains(l),
        rs.peers.dom().contains(other) ==> (leader matches Some(l) && other <= l),
{
}

/// An update of medium order is led by a trusted peer whose replica is a source of truth and that
/// no other such peer is above; there is none only if there is no such peer.
pub proof fn law_medium_leader(rs: ReplicaSetView, leader: Option<PeerId>, other: PeerId)
    requires
        rs.is_leader_for(WriteOrdering::Medium, leader),
    ensures
        leader matches Some(l) ==> {
            &&& rs.peers.dom().contains(l)
            &&& rs.state_rules.source_of_truth.has(rs.peers[l])
            &&& !rs.locally_disabled.contains(l)
        },
        rs.peers.dom().contains(other) && rs.state_rules.source_of_truth.has(rs.peers[other])
            && !rs.locally_disabled.contains(other) ==> (leader matches Some(l) && other <= l),
{
    if rs.peers.dom().contains(other) && rs.peer_can_be_source_of_truth(other) {
        assert(rs.alive_peers().contains(other));
    }
    if let Some(l) = leader {
        assert(rs.alive_peers().contains(l));
    }
}

// Targets

/// The remote targets of an update are the remote replicas without those that are unknown, dead,
/// distrusted or in a state that takes no updates, in the same order and as often as they occur.
pub proof fn law_targets_are_the_updatable_remotes(rs: ReplicaSetView, targets: UpdateTargets)
    requires
        rs.are_targets(targets),
    ensures
        targets.remotes@ == rs.remotes.filter(
            |p: PeerId|
                rs.peers.dom().contains(p) && !rs.locally_disabled.contains(p) && rs.peers[p]
                    != ReplicaState::Dead && rs.state_rules.updatable.has(rs.peers[p]),
        ),
        targets.replicas.local == rs.has_local,
        rs.remotes.len() <= usize::MAX ==> targets.replicas.remotes == rs.remotes.len(),
        targets.hook == rs.ordered_write_remote_update_hook,
{
    let direct = |p: PeerId|
        rs.peers.dom().contains(p) && !rs.locally_disabled.contains(p) && rs.peers[p]
            != ReplicaState::Dead && rs.state_rules.updatable.has(rs.peers[p]);
    assert forall|p: PeerId| #[trigger] direct(p) == rs.is_peer_updatable(p) by {}
    assert(direct =~= (|p: PeerId| rs.is_peer_updatable(p)));
}

/// There is someone to send an update to exactly if some remote replica or the local one can be
/// updated.
pub proof fn law_update_needs_one_updatable_replica(rs: ReplicaSetView)
    ensures
        rs.has_updatable_replica() <==> {
            ||| exists|i: int|
                0 <= i < rs.remotes.len() && rs.is_peer_updatable(#[trigger] rs.remotes[i])
            ||| rs.has_local && rs.is_peer_updatable(rs.this_peer_id)
        },
{
    let updatable = |p: PeerId| rs.is_peer_updatable(p);
    let chosen = rs.remotes.filter(updatable);
    assert(chosen == rs.updatable_remotes());
    if chosen.len() > 0 {
        rs.remotes.lemma_filter_pred(updatable, 0);
        assert(chosen.contains(chosen[0]));
        rs.remotes.lemma_filter_contains_rev(updatable, chosen[0]);
        let i = choose|i: int| 0 <= i < rs.remotes.len() && rs.remotes[i] == chosen[0];
        assert(rs.is_peer_updatable(rs.remotes[i]));
    }
    if exists|i: int| 0 <= i < rs.remotes.len() && rs.is_peer_updatable(#[trigger] rs.remotes[i]) {
        let i = choose|i: int|
            0 <= i < rs.remotes.len() && rs.is_peer_updatable(#[trigger] rs.remotes[i]);
        rs.remotes.lemma_filter_contains(updatable, i);
        assert(chosen.contains(rs.remotes[i]));
    }
}

/// The local replica takes part in an update exactly if there is one and it can be updated. It is
/// waited for as the client asked, unless it is a listener, and asks its rate limiter exactly if
/// it is active.
pub proof fn law_how_the_local_replica_takes_part(rs: ReplicaSetView, local: bool, wait: bool)
    ensures
        rs.local_dispatch(local, wait) is Some <==> local && rs.is_peer_updatable(rs.this_peer_id),
        rs.local_dispatch(local, wait) matches Some(dispatch) ==> {
            &&& rs.peers[rs.this_peer_id] == ReplicaState::Listener ==> !dispatch.wait
            &&& rs.peers[rs.this_peer_id] != ReplicaState::Listener ==> dispatch.wait == wait
            &&& dispatch.check_rate_limit == (rs.peers[rs.this_peer_id] == ReplicaState::Active)
        },
{
}

/// The number of successes that is needed is the write consistency factor or the number of
/// replicas, whichever is smaller.
pub proof fn law_needed_successes(rs: ReplicaSetView, replicas: ReplicaCount)
    ensures
        replicas.total() == replicas.remotes + (if replicas.local {
            1int
        } else {
            0int
        }),
        rs.minimal_success_count(replicas) <= rs.write_consistency_factor,
        rs.minimal_success_count(replicas) <= replicas.total(),
        rs.minimal_success_count(replicas) == rs.write_consistency_factor
            || rs.minimal_success_count(replicas) == replicas.total(),
{
}

// Views

/// The view of a replica set leaves nothing out.
pub proof fn law_view_of_a_replica_set_is_complete(rs: ShardReplicaSet)
    ensures
        rs@.collection_id == rs.collection_id@,
        rs@.shard_id == rs.shard_id,
        rs@.this_peer_id == rs.this_peer_id,
        rs@.has_local == rs.has_local,
        rs@.remotes == rs.remotes@,
        rs@.peers == rs.peers@,
        rs@.locally_disabled == rs.locally_disabled@,
        rs@.state_rules == rs.state_rules,
        rs@.write_consistency_factor == rs.write_consistency_factor,
        rs@.update_concurrency == rs.update_concurrency,
        rs@.ordered_write_remote_update_hook == rs.ordered_write_remote_update_hook,
{
}

/// The view of an error keeps its kind and its texts.
pub proof fn law_view_of_an_error_is_complete(error: CollectionError)
    ensures
        error matches CollectionError::ServiceError { error: text } ==> error@
            == (CollectionErrorView::ServiceError { error: text@ }),
        error matches CollectionError::Timeout { timeout, description } ==> error@
            == (CollectionErrorView::Timeout { timeout, description: description@ }),
        error matches CollectionError::Replica(e) ==> error@ == CollectionErrorView::Replica(e),
{
}

// Numbers

/// What a digit stands for.
pub open spec fn digit_value(c: char) -> int {
    c as int - '0' as int
}

/// The number that a sequence of decimal digits stands for.
pub open spec fn value_of(digits: Seq<char>) -> int
    decreases digits.len(),
{
    if digits.len() == 0 {
        0
    } else {
        10 * value_of(digits.drop_last()) + digit_value(digits.last())
    }
}

/// A number that is written in a message can be read back from it: the text consists of digits,
/// stands for the number, and has no leading zero beyond that of zero itself.
pub proof fn law_decimal_reads_back(n: nat)
    ensures
        value_of(decimal(n)) == n,
        decimal(n).len() > 0,
        forall|i: int| 0 <= i < decimal(n).len() ==> '0' <= #[trigger] decimal(n)[i] <= '9',
        decimal(n)[0] == '0' ==> n == 0,
    decreases n,
{
    reveal_with_fuel(value_of, 2);
    if n < 10 {
        assert(decimal(n).drop_last() =~= Seq::empty());
        assert(digit_value(digit(n)) == n);
    } else {
        law_decimal_reads_back(n / 10);
        assert(decimal(n).drop_last() =~= decimal(n / 10));
        assert(digit_value(digit(n % 10)) == n % 10);
        assert(decimal(n)[0] == decimal(n / 10)[0]);
        assert forall|i: int| 0 <= i < decimal(n).len() implies '0' <= #[trigger] decimal(n)[i]
            <= '9' by {
            if i < decimal(n / 10).len() {
                assert(decimal(n)[i] == decimal(n / 10)[i]);
            }
        }
    }
}

} // verus!
