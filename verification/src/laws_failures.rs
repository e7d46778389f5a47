//! What failures of replicas lead to, failure by failure.

use vstd::prelude::*;
use crate::failures::Deactivation;
use crate::replica_set::ReplicaSetView;
use crate::types::{PeerId, ReplicaError, ReplicaState};

verus! {

/// Which failures are excused: those of unknown replicas; all of replicas that are dead, listen
/// only or wait for an operator; a missing point or an unmet precondition while a transfer fills
/// the replica; and a missing point where only existing points are updated. No other is.
pub proof fn law_which_failures_are_excused(
    rs: ReplicaSetView,
    peer_id: PeerId,
    error: ReplicaError,
    update_only_existing: bool,
)
    ensures
        ({
            let acted_upon = rs.must_deactivate((peer_id, error), update_only_existing);
            let state = rs.peers[peer_id];
            let filled = rs.state_rules.partial_or_recovery.has(state);
            &&& !rs.peers.dom().contains(peer_id) ==> !acted_upon
            &&& state == ReplicaState::Dead ==> !acted_upon
            &&& state == ReplicaState::Listener ==> !acted_upon
            &&& state == ReplicaState::ManualRecovery ==> !acted_upon
            &&& filled && error.missing_point ==> !acted_upon
            &&& filled && error.pre_condition_failed ==> !acted_upon
            &&& update_only_existing && error.missing_point ==> !acted_upon
            &&& rs.peers.dom().contains(peer_id) && state != ReplicaState::Dead && state
                != ReplicaState::Listener && state != ReplicaState::ManualRecovery && (!filled
                || !error.missing_point && !error.pre_condition_failed) && (!update_only_existing
                || !error.missing_point) ==> acted_upon
        }),
{
}

/// Where only existing points are updated, missing points cost no replica its place: one whose
/// failures are all missing points is not deactivated, whatever its state and whether or not the
/// errors may pass, and none of these failures holds up other operations.
pub proof fn law_missing_points_are_passed_over(
    rs: ReplicaSetView,
    failures: Seq<(PeerId, ReplicaError)>,
    peer_id: PeerId,
    k: int,
)
    requires
        forall|i: int|
            0 <= i < failures.len() && (#[trigger] failures[i]).0 == peer_id
                ==> failures[i].1.missing_point,
    ensures
        0 <= k < rs.deactivations(failures, true).len() ==> rs.deactivations(
            failures,
            true,
        )[k].peer_id != peer_id,
        rs.any_holds_up(failures, true) ==> exists|i: int|
            0 <= i < failures.len() && (#[trigger] failures[i]).0 != peer_id
                && !failures[i].1.missing_point,
{
    let choice = |failure: (PeerId, ReplicaError)| rs.deactivation(failure, true);
    let deactivations = rs.deactivations(failures, true);
    if 0 <= k < deactivations.len() {
        assert(deactivations.contains(deactivations[k]));
        failures.lemma_filter_map_contains(choice, deactivations[k]);
        let failure = choose|failure: (PeerId, ReplicaError)| #[trigger]
            failures.contains(failure) && choice(failure) == Some(deactivations[k]);
        let i = choose|i: int| 0 <= i < failures.len() && failures[i] == failure;
        assert(failures[i].0 == deactivations[k].peer_id);
    }
    if rs.any_holds_up(failures, true) {
        let i = choose|i: int|
            0 <= i < failures.len() && rs.holds_up(#[trigger] failures[i], true);
        assert(failures[i].0 != peer_id);
    }
}

/// Each failure that is not excused asks for the deactivation of its replica, in the order of the
/// failures: from its present state, or from any state while a transfer fills it.
pub proof fn law_what_failures_ask_for(
    rs: ReplicaSetView,
    failures: Seq<(PeerId, ReplicaError)>,
    update_only_existing: bool,
)
    ensures
        rs.deactivations(failures, update_only_existing) == failures.filter_map(
            |f: (PeerId, ReplicaError)|
                if !rs.must_deactivate(f, update_only_existing) {
                    None
                } else if rs.state_rules.partial_or_recovery.has(rs.peers[f.0]) {
                    Some(Deactivation { peer_id: f.0, from_state: None })
                } else {
                    Some(Deactivation { peer_id: f.0, from_state: Some(rs.peers[f.0]) })
                },
        ),
{
    let choice = |f: (PeerId, ReplicaError)| rs.deactivation(f, update_only_existing);
    let direct = |f: (PeerId, ReplicaError)|
        if !rs.must_deactivate(f, update_only_existing) {
            None
        } else if rs.state_rules.partial_or_recovery.has(rs.peers[f.0]) {
            Some(Deactivation { peer_id: f.0, from_state: None })
        } else {
            Some(Deactivation { peer_id: f.0, from_state: Some(rs.peers[f.0]) })
        };
    assert(choice =~= direct);
}

/// Other operations have to wait exactly if some failure that is not excused may pass by itself,
/// or is one of a replica that is being initialized.
pub proof fn law_when_failures_hold_up_others(
    rs: ReplicaSetView,
    failures: Seq<(PeerId, ReplicaError)>,
    update_only_existing: bool,
)
    ensures
        rs.any_holds_up(failures, update_only_existing) <==> exists|i: int|
            {
                &&& 0 <= i < failures.len()
                &&& rs.must_deactivate(#[trigger] failures[i], update_only_existing)
                &&& failures[i].1.transient || rs.peers[failures[i].0]
                    == ReplicaState::Initializing
            },
{
    if rs.any_holds_up(failures, update_only_existing) {
        let i = choose|i: int|
            0 <= i < failures.len() && rs.holds_up(#[trigger] failures[i], update_only_existing);
        assert(rs.must_deactivate(failures[i], update_only_existing));
    }
    if exists|i: int|
        {
            &&& 0 <= i < failures.len()
            &&& rs.must_deactivate(#[trigger] failures[i], update_only_existing)
            &&& failures[i].1.transient || rs.peers[failures[i].0] == ReplicaState::Initializing
        } {
        let i = choose|i: int|
            {
                &&& 0 <= i < failures.len()
                &&& rs.must_deactivate(#[trigger] failures[i], update_only_existing)
                &&& failures[i].1.transient || rs.peers[failures[i].0]
                    == ReplicaState::Initializing
            };
        assert(rs.holds_up(failures[i], update_only_existing));
    }
}

/// What failures lead to is decided one by one: handling two lists one after the other asks for
/// the same deactivations as handling them at once, and holds up others exactly if either does.
pub proof fn law_failures_are_handled_one_by_one(
    rs: ReplicaSetView,
    first: Seq<(PeerId, ReplicaError)>,
    second: Seq<(PeerId, ReplicaError)>,
    update_only_existing: bool,
)
    ensures
        rs.deactivations(first + second, update_only_existing) == rs.deactivations(
            first,
            update_only_existing,
        ) + rs.deactivations(second, update_only_existing),
        rs.any_holds_up(first + second, update_only_existing) <==> rs.any_holds_up(
            first,
            update_only_existing,
        ) || rs.any_holds_up(second, update_only_existing),
    decreases second.len(),
{
    let all = first + second;
    if second.len() == 0 {
        assert(all =~= first);
        assert(rs.deactivations(all, update_only_existing) =~= rs.deactivations(
            first,
            update_only_existing,
        ) + rs.deactivations(second, update_only_existing));
    } else {
        law_failures_are_handled_one_by_one(
            rs,
            first,
            second.drop_last(),
            update_only_existing,
        );
        assert(all.drop_last() =~= first + second.drop_last());
        assert(all.last() == second.last());
        assert(rs.deactivations(all, update_only_existing) =~= rs.deactivations(
            first,
            update_only_existing,
        ) + rs.deactivations(second, update_only_existing));
    }
    assert forall|i: int| 0 <= i < first.len() implies first[i] == #[trigger] all[i] by {}
    assert forall|i: int| 0 <= i < second.len() implies second[i] == #[trigger] all[first.len()
        + i] by {}
    if rs.any_holds_up(all, update_only_existing) {
        let i = choose|i: int|
            0 <= i < all.len() && rs.holds_up(#[trigger] all[i], update_only_existing);
        if i < first.len() {
            assert(rs.holds_up(first[i], update_only_existing));
        } else {
            assert(rs.holds_up(second[i - first.len()], update_only_existing));
        }
    }
    if rs.any_holds_up(first, update_only_existing) {
        let i = choose|i: int|
            0 <= i < first.len() && rs.holds_up(#[trigger] first[i], update_only_existing);
        assert(rs.holds_up(all[i], update_only_existing));
    }
    if rs.any_holds_up(second, update_only_existing) {
        let i = choose|i: int|
            0 <= i < second.len() && rs.holds_up(#[trigger] second[i], update_only_existing);
        assert(rs.holds_up(all[first.len() + i], update_only_existing));
    }
}

/// Disabling replicas adds exactly their peers to those that are not trusted, and leaves all else
/// as it is.
pub proof fn law_disabling_only_takes_trust_away(
    rs: ReplicaSetView,
    deactivations: Seq<Deactivation>,
    peer_id: PeerId,
)
    ensures
        ({
            let disabled = rs.disabling(deactivations);
            &&& disabled.locally_disabled.contains(peer_id) <==> {
                ||| rs.locally_disabled.contains(peer_id)
                ||| exists|i: int|
                    0 <= i < deactivations.len() && (#[trigger] deactivations[i]).peer_id
                        == peer_id
            }
            &&& disabled == (ReplicaSetView {
                locally_disabled: disabled.locally_disabled,
                ..rs
            })
        }),
{
}

/// Replicas count as deactivated exactly if none of them is known to be in a state that makes it
/// a source of truth. Whether this peer trusts them does not matter.
pub proof fn law_when_replicas_are_deactivated(rs: ReplicaSetView, peer_ids: Seq<PeerId>)
    ensures
        !rs.all_deactivated(peer_ids) <==> exists|i: int|
            {
                &&& 0 <= i < peer_ids.len()
                &&& rs.peers.dom().contains(#[trigger] peer_ids[i])
                &&& rs.state_rules.source_of_truth.has(rs.peers[peer_ids[i]])
            },
{
}

} // verus!
