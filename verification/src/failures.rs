//! What to do about replicas that failed to take an update.

use vstd::prelude::*;
use crate::replica_set::{ReplicaSetView, ShardReplicaSet};
use crate::types::{PeerId, ReplicaError, ReplicaState};

verus! {

/// A replica that has to be deactivated: disabled on this peer at once, and reported to the
/// cluster.
#[derive(Clone, Copy, Debug, PartialEq, Eq, Structural)]
pub struct Deactivation {
    /// Peer that holds the replica
    pub peer_id: PeerId,
    /// State that the replica is expected to be in; without one, it is deactivated in any state
    pub from_state: Option<ReplicaState>,
}

/// What the failures of some replicas lead to.
#[derive(Debug, PartialEq, Eq)]
pub struct FailureHandling {
    /// Replicas to deactivate, in the order of their failures
    pub deactivations: Vec<Deactivation>,
    /// Whether no other operation may go on before the replicas are deactivated
    pub wait_for_deactivation: bool,
}

impl ReplicaState {
    /// Whether failures of a replica in this state are ignored entirely.
    pub open spec fn ignores_failures(self) -> bool {
        self is Dead || self is Listener || self is ManualRecovery
    }
}

/// The peers whose replicas are deactivated.
pub open spec fn deactivated_peers(deactivations: Seq<Deactivation>) -> Set<PeerId> {
    Set::new(
        |peer_id: PeerId|
            exists|i: int|
                0 <= i < deactivations.len() && (#[trigger] deactivations[i]).peer_id == peer_id,
    )
}

impl ReplicaSetView {
    /// Whether a replica that fails with `error` has to be deactivated.
    ///
    /// Left alone are unknown replicas, those whose failures are ignored, those that a transfer
    /// still fills and that miss a point or are not yet in the expected state, and, where only
    /// existing points are updated, those that miss a point.
    pub open spec fn must_deactivate(
        self,
        failure: (PeerId, ReplicaError),
        update_only_existing: bool,
    ) -> bool {
        let (peer_id, error) = failure;
        let filling = self.state_rules.partial_or_recovery.has(self.peers[peer_id]);
        &&& self.peers.contains_key(peer_id)
        &&& !self.peers[peer_id].ignores_failures()
        &&& !(filling && (error.pre_condition_failed || error.missing_point))
        &&& !(update_only_existing && error.missing_point)
    }

    /// The state that a replica is expected to be in when it is deactivated: its own, or none
    /// while a transfer fills it.
    pub open spec fn deactivated_from(self, peer_id: PeerId) -> Option<ReplicaState> {
        if self.state_rules.partial_or_recovery.has(self.peers[peer_id]) {
            None
        } else {
            Some(self.peers[peer_id])
        }
    }

    /// What a failure leads to, if it leads to anything.
    pub open spec fn deactivation(
        self,
        failure: (PeerId, ReplicaError),
        update_only_existing: bool,
    ) -> Option<Deactivation> {
        if self.must_deactivate(failure, update_only_existing) {
            Some(Deactivation { peer_id: failure.0, from_state: self.deactivated_from(failure.0) })
        } else {
            None
        }
    }

    /// Whether other operations have to wait until the failed replica is deactivated: it might
    /// answer again before the other peers learn of the failure.
    pub open spec fn holds_up(
        self,
        failure: (PeerId, ReplicaError),
        update_only_existing: bool,
    ) -> bool {
        &&& self.must_deactivate(failure, update_only_existing)
        &&& failure.1.transient || self.peers[failure.0] is Initializing
    }

    /// The replicas that the failures deactivate, in order.
    pub open spec fn deactivations(
        self,
        failures: Seq<(PeerId, ReplicaError)>,
        update_only_existing: bool,
    ) -> Seq<Deactivation> {
        failures.filter_map(|failure| self.deactivation(failure, update_only_existing))
    }

    /// The replica set once the replicas of the deactivations are disabled on this peer.
    pub open spec fn disabling(self, deactivations: Seq<Deactivation>) -> ReplicaSetView {
        ReplicaSetView {
            locally_disabled: self.locally_disabled.union(deactivated_peers(deactivations)),
            ..self
        }
    }

    /// Whether any of the failures holds up other operations.
    pub open spec fn any_holds_up(
        self,
        failures: Seq<(PeerId, ReplicaError)>,
        update_only_existing: bool,
    ) -> bool {
        exists|i: int|
            0 <= i < failures.len() && self.holds_up(#[trigger] failures[i], update_only_existing)
    }

    /// Whether none of the replicas is in a state that makes it a source of truth.
    pub open spec fn all_deactivated(self, peer_ids: Seq<PeerId>) -> bool {
        forall|i: int|
            0 <= i < peer_ids.len() && self.peers.contains_key(#[trigger] peer_ids[i])
                ==> !self.state_rules.source_of_truth.has(self.peers[peer_ids[i]])
    }
}

/// Without deactivations, nothing is disabled.
pub proof fn lemma_disabling_nothing(rs: ReplicaSetView, deactivations: Seq<Deactivation>)
    requires
        deactivations.len() == 0,
    ensures
        rs.disabling(deactivations) == rs,
{
    assert(rs.disabling(deactivations).locally_disabled =~= rs.locally_disabled);
}

/// Whether the replica of a peer is deactivated.
pub(crate) fn is_deactivated(deactivations: &[Deactivation], peer_id: PeerId) -> (deactivated: bool)
    ensures
        deactivated == deactivated_peers(deactivations@).contains(peer_id),
{
    let mut i: usize = 0;
    while i < deactivations.len()
        invariant
            i <= deactivations.len(),
            forall|j: int| 0 <= j < i ==> (#[trigger] deactivations@[j]).peer_id != peer_id,
        decreases deactivations.len() - i,
    {
        if deactivations[i].peer_id == peer_id {
            return true;
        }
        i += 1;
    }
    false
}

impl ShardReplicaSet {
    /// What one failure leads to, and whether it holds up other operations.
    pub(crate) fn handle_failed_replica(
        &self,
        failure: &(PeerId, ReplicaError),
        update_only_existing: bool,
    ) -> (handling: (Option<Deactivation>, bool))
        ensures
            handling.0 == self@.deactivation(*failure, update_only_existing),
            handling.1 == self@.holds_up(*failure, update_only_existing),
    {
        let (peer_id, error) = failure;
        let peer_state = match self.peer_state(*peer_id) {
            Some(state) => state,
            None => {
                return (None, false);
            },
        };

        // Ignore errors entirely for dead and listener replicas
        match peer_state {
            ReplicaState::Dead | ReplicaState::Listener | ReplicaState::ManualRecovery => {
                return (None, false);
            },
            _ => {},
        }

        // A transfer that fills the replica takes care of its data
        let filling = self.state_rules.partial_or_recovery.contains(peer_state);
        if filling && error.pre_condition_failed {
            return (None, false);
        }
        // The point may not have been transferred yet
        if filling && error.missing_point {
            return (None, false);
        }
        if update_only_existing && error.missing_point {
            return (None, false);
        }
        let holds_up = error.transient || matches!(peer_state, ReplicaState::Initializing);
        let from_state = if filling {
            None
        } else {
            Some(peer_state)
        };
        (Some(Deactivation { peer_id: *peer_id, from_state }), holds_up)
    }

    /// What the failures of some replicas lead to.
    pub fn handle_failed_replicas(
        &self,
        failures: &[(PeerId, ReplicaError)],
        update_only_existing: bool,
    ) -> (handling: FailureHandling)
        ensures
            handling.deactivations@ == self@.deactivations(failures@, update_only_existing),
            handling.wait_for_deactivation == self@.any_holds_up(failures@, update_only_existing),
    {
        let ghost choice = |failure: (PeerId, ReplicaError)|
            self@.deactivation(failure, update_only_existing);
        let mut deactivations: Vec<Deactivation> = Vec::new();
        let mut wait_for_deactivation = false;
        let mut i: usize = 0;
        assert(failures@.take(0).filter_map(choice) =~= Seq::empty());
        while i < failures.len()
            invariant
                i <= failures.len(),
                choice == (|failure: (PeerId, ReplicaError)|
                    self@.deactivation(failure, update_only_existing)),
                deactivations@ == failures@.take(i as int).filter_map(choice),
                wait_for_deactivation == exists|j: int|
                    0 <= j < i && self@.holds_up(#[trigger] failures@[j], update_only_existing),
            decreases failures.len() - i,
        {
            let (deactivation, holds_up) = self.handle_failed_replica(
                &failures[i],
                update_only_existing,
            );
            proof {
                failures@.lemma_filter_map_take_succ(choice, i as int);
            }
            match deactivation {
                Some(deactivation) => {
                    deactivations.push(deactivation);
                },
                None => {},
            }
            if holds_up {
                wait_for_deactivation = true;
            }
            i += 1;
        }
        assert(failures@.take(failures@.len() as int) =~= failures@);
        FailureHandling { deactivations, wait_for_deactivation }
    }

    /// Whether none of the replicas is in a state that makes it a source of truth. A replica
    /// that is not known any more counts as deactivated.
    pub fn replicas_deactivated(&self, peer_ids: &[PeerId]) -> (deactivated: bool)
        ensures
            deactivated == self@.all_deactivated(peer_ids@),
    {
        let mut i: usize = 0;
        while i < peer_ids.len()
            invariant
                i <= peer_ids.len(),
                self@.all_deactivated(peer_ids@.take(i as int)),
            decreases peer_ids.len() - i,
        {
            match self.peer_state(peer_ids[i]) {
                Some(state) => {
                    if self.state_rules.source_of_truth.contains(state) {
                        return false;
                    }
                },
                None => {},
            }
            assert(peer_ids@.take(i + 1) =~= peer_ids@.take(i as int).push(peer_ids@[i as int]));
            i += 1;
        }
        assert(peer_ids@.take(peer_ids@.len() as int) =~= peer_ids@);
        true
    }
}

} // verus!
