//! What a peer knows of the replicas of one shard, and who leads an update.

use std::collections::{HashMap, HashSet};

use vstd::prelude::*;
use crate::rules::StateRules;
use crate::types::{PeerId, ReplicaState, ShardId, WriteOrdering};

verus! {

broadcast use vstd::std_specs::hash::group_hash_axioms;

/// The replicas of one shard, as one peer of the cluster sees them at one moment.
#[derive(Debug)]
pub struct ShardReplicaSet {
    /// Collection that the shard belongs to
    pub collection_id: String,
    /// The shard
    pub shard_id: ShardId,
    /// The peer whose view this is
    pub this_peer_id: PeerId,
    /// Whether this peer holds a replica itself
    pub has_local: bool,
    /// Peers that hold the other replicas, in the order in which they are asked
    pub remotes: Vec<PeerId>,
    /// State of each replica that the cluster knows of, by the peer that holds it
    pub peers: HashMap<PeerId, ReplicaState>,
    /// Peers that this peer has stopped to trust, ahead of the cluster
    pub locally_disabled: HashSet<PeerId>,
    /// How replica states are classed
    pub state_rules: StateRules,
    /// How many replicas have to take an update for it to be accepted
    pub write_consistency_factor: u32,
    /// How many replicas are updated at once, if that is limited
    pub update_concurrency: Option<usize>,
    /// Stands in for the remote replicas of an update, if there is one
    pub ordered_write_remote_update_hook: Option<u64>,
}

/// A replica set as a mathematical value.
pub struct ReplicaSetView {
    pub collection_id: Seq<char>,
    pub shard_id: ShardId,
    pub this_peer_id: PeerId,
    pub has_local: bool,
    pub remotes: Seq<PeerId>,
    pub peers: Map<PeerId, ReplicaState>,
    pub locally_disabled: Set<PeerId>,
    pub state_rules: StateRules,
    pub write_consistency_factor: u32,
    pub update_concurrency: Option<usize>,
    pub ordered_write_remote_update_hook: Option<u64>,
}

impl View for ShardReplicaSet {
    type V = ReplicaSetView;

    open spec fn view(&self) -> ReplicaSetView {
        ReplicaSetView {
            collection_id: self.collection_id@,
            shard_id: self.shard_id,
            this_peer_id: self.this_peer_id,
            has_local: self.has_local,
            remotes: self.remotes@,
            peers: self.peers@,
            locally_disabled: self.locally_disabled@,
            state_rules: self.state_rules,
            write_consistency_factor: self.write_consistency_factor,
            update_concurrency: self.update_concurrency,
            ordered_write_remote_update_hook: self.ordered_write_remote_update_hook,
        }
    }
}

impl ReplicaSetView {
    /// State of the replica on a peer, if there is one.
    pub open spec fn peer_state(self, peer_id: PeerId) -> Option<ReplicaState> {
        if self.peers.contains_key(peer_id) {
            Some(self.peers[peer_id])
        } else {
            None
        }
    }

    /// Whether this peer has stopped to trust a peer.
    pub open spec fn is_locally_disabled(self, peer_id: PeerId) -> bool {
        self.locally_disabled.contains(peer_id)
    }

    /// Whether the replica on a peer is sent updates.
    pub open spec fn is_peer_updatable(self, peer_id: PeerId) -> bool {
        &&& self.peers.contains_key(peer_id)
        &&& !(self.peers[peer_id] is Dead)
        &&& self.state_rules.updatable.has(self.peers[peer_id])
        &&& !self.is_locally_disabled(peer_id)
    }

    /// Whether the replica on a peer takes part in a resharding and is trusted.
    pub open spec fn peer_is_resharding(self, peer_id: PeerId) -> bool {
        &&& self.peers.contains_key(peer_id)
        &&& self.peers[peer_id].is_resharding()
        &&& !self.is_locally_disabled(peer_id)
    }

    /// Whether the replica on a peer is active and trusted.
    pub open spec fn peer_is_active(self, peer_id: PeerId) -> bool {
        &&& self.peers.contains_key(peer_id)
        &&& self.peers[peer_id] is Active
        &&& !self.is_locally_disabled(peer_id)
    }

    /// Whether the replica on a peer holds everything that was acknowledged, and is trusted.
    pub open spec fn peer_can_be_source_of_truth(self, peer_id: PeerId) -> bool {
        &&& self.peers.contains_key(peer_id)
        &&& self.state_rules.source_of_truth.has(self.peers[peer_id])
        &&& !self.is_locally_disabled(peer_id)
    }

    /// The peers that can be a source of truth.
    pub open spec fn alive_peers(self) -> Set<PeerId> {
        self.peers.dom().filter(|peer_id: PeerId| self.peer_can_be_source_of_truth(peer_id))
    }

    /// Whether `leader` is the peer that leads updates of an ordering: this peer where no order
    /// is asked for, the highest peer that is alive for a medium order, and the highest peer of
    /// all for a strong one.
    pub open spec fn is_leader_for(self, ordering: WriteOrdering, leader: Option<PeerId>) -> bool {
        match ordering {
            WriteOrdering::Weak => leader == Some(self.this_peer_id),
            WriteOrdering::Medium => is_highest(self.alive_peers(), leader),
            WriteOrdering::Strong => is_highest(self.peers.dom(), leader),
        }
    }
}

/// Whether `highest` is the greatest member of a set, or nothing for the empty set.
pub open spec fn is_highest(peer_ids: Set<PeerId>, highest: Option<PeerId>) -> bool {
    match highest {
        Some(peer_id) => {
            &&& peer_ids.contains(peer_id)
            &&& forall|other: PeerId| #[trigger] peer_ids.contains(other) ==> other <= peer_id
        },
        None => forall|other: PeerId| !#[trigger] peer_ids.contains(other),
    }
}

impl ShardReplicaSet {
    /// Puts a hook in the place of the remote replicas, or takes it away again.
    pub fn set_ordered_write_remote_update_hook(&mut self, hook: Option<u64>)
        ensures
            final(self)@ == (ReplicaSetView {
                ordered_write_remote_update_hook: hook,
                ..old(self)@
            }),
    {
        self.ordered_write_remote_update_hook = hook;
    }

    /// The peer whose view this is.
    pub fn this_peer_id(&self) -> (peer_id: PeerId)
        ensures
            peer_id == self@.this_peer_id,
    {
        self.this_peer_id
    }

    /// State of the replica on a peer, if there is one.
    pub fn peer_state(&self, peer_id: PeerId) -> (state: Option<ReplicaState>)
        ensures
            state == self@.peer_state(peer_id),
    {
        match self.peers.get(&peer_id) {
            Some(state) => Some(*state),
            None => None,
        }
    }

    /// Whether this peer has stopped to trust a peer.
    pub fn is_locally_disabled(&self, peer_id: PeerId) -> (disabled: bool)
        ensures
            disabled == self@.is_locally_disabled(peer_id),
    {
        self.locally_disabled.contains(&peer_id)
    }

    /// Whether to send updates to the given peer.
    ///
    /// A peer in dead state, or in another state that takes no updates, or a locally disabled
    /// peer, is sent none.
    pub fn is_peer_updatable(&self, peer_id: PeerId) -> (updatable: bool)
        ensures
            updatable == self@.is_peer_updatable(peer_id),
    {
        match self.peer_state(peer_id) {
            None | Some(ReplicaState::Dead) => false,
            Some(state) => self.state_rules.updatable.contains(state)
                && !self.is_locally_disabled(peer_id),
        }
    }

    /// Whether the replica on a peer takes part in a resharding and is trusted.
    pub fn peer_is_resharding(&self, peer_id: PeerId) -> (resharding: bool)
        ensures
            resharding == self@.peer_is_resharding(peer_id),
    {
        match self.peer_state(peer_id) {
            Some(state) => state.is_resharding() && !self.is_locally_disabled(peer_id),
            None => false,
        }
    }

    /// Whether the replica on a peer is active and trusted.
    pub fn peer_is_active(&self, peer_id: PeerId) -> (active: bool)
        ensures
            active == self@.peer_is_active(peer_id),
    {
        match self.peer_state(peer_id) {
            Some(ReplicaState::Active) => !self.is_locally_disabled(peer_id),
            _ => false,
        }
    }

    /// Whether the replica on a peer holds everything that was acknowledged, and is trusted.
    pub fn peer_can_be_source_of_truth(&self, peer_id: PeerId) -> (truthful: bool)
        ensures
            truthful == self@.peer_can_be_source_of_truth(peer_id),
    {
        match self.peer_state(peer_id) {
            Some(state) => self.state_rules.source_of_truth.contains(state)
                && !self.is_locally_disabled(peer_id),
            None => false,
        }
    }

    /// The peer that leads an update of the given ordering.
    pub fn leader_peer_for_update(&self, ordering: WriteOrdering) -> (leader: Option<PeerId>)
        ensures
            self@.is_leader_for(ordering, leader),
    {
        match ordering {
            WriteOrdering::Weak => Some(self.this_peer_id()),
            WriteOrdering::Medium => self.highest_alive_replica_peer_id(),
            WriteOrdering::Strong => self.highest_replica_peer_id(),
        }
    }

    /// The highest peer that can be a source of truth.
    pub fn highest_alive_replica_peer_id(&self) -> (highest: Option<PeerId>)
        ensures
            is_highest(self@.alive_peers(), highest),
    {
        let mut highest: Option<PeerId> = None;
        for peer_id in keys: self.peers.keys()
            invariant
                match highest {
                    Some(h) => {
                        &&& self@.alive_peers().contains(h)
                        &&& forall|i: int|
                            0 <= i < keys.index() && self@.alive_peers().contains(
                                *#[trigger] keys.seq()[i],
                            ) ==> *keys.seq()[i] <= h
                    },
                    None => forall|i: int|
                        0 <= i < keys.index() ==> !self@.alive_peers().contains(
                            *#[trigger] keys.seq()[i],
                        ),
                },
        {
            if self.peer_can_be_source_of_truth(*peer_id) {
                highest = higher_of(highest, *peer_id);
            }
        }
        highest
    }

    /// The highest peer that holds a replica.
    pub fn highest_replica_peer_id(&self) -> (highest: Option<PeerId>)
        ensures
            is_highest(self@.peers.dom(), highest),
    {
        let mut highest: Option<PeerId> = None;
        for peer_id in keys: self.peers.keys()
            invariant
                match highest {
                    Some(h) => {
                        &&& self@.peers.dom().contains(h)
                        &&& forall|i: int| 0 <= i < keys.index() ==> *#[trigger] keys.seq()[i] <= h
                    },
                    None => keys.index() == 0,
                },
        {
            highest = higher_of(highest, *peer_id);
        }
        highest
    }
}

/// The greater of a peer and of what was the highest so far.
fn higher_of(highest: Option<PeerId>, peer_id: PeerId) -> (higher: Option<PeerId>)
    ensures
        higher == Some(
            match highest {
                Some(h) => if h < peer_id {
                    peer_id
                } else {
                    h
                },
                None => peer_id,
            },
        ),
{
    match highest {
        Some(h) if h >= peer_id => Some(h),
        _ => Some(peer_id),
    }
}

} // verus!
