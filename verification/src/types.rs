//! The vocabulary of updates: replica states, write orderings, clock tags, results and errors.

use vstd::prelude::*;
use crate::duration::Duration;

verus! {

/// Identifies a peer of the cluster.
pub type PeerId = u64;

/// Identifies a shard within its collection.
pub type ShardId = u32;

/// State of one replica of a shard, as the cluster has agreed on it.
#[derive(Clone, Copy, Debug, PartialEq, Eq, Structural)]
pub enum ReplicaState {
    Active,
    Dead,
    Partial,
    Initializing,
    Listener,
    PartialSnapshot,
    Recovery,
    Resharding,
    ReshardingScaleDown,
    ActiveRead,
    ManualRecovery,
}

impl ReplicaState {
    /// Whether the replica takes part in a resharding, in either direction.
    pub open spec fn spec_is_resharding(self) -> bool {
        self is Resharding || self is ReshardingScaleDown
    }

    /// Whether the replica takes part in a resharding, in either direction.
    #[verifier::when_used_as_spec(spec_is_resharding)]
    pub fn is_resharding(self) -> (resharding: bool)
        ensures
            resharding == self.spec_is_resharding(),
    {
        match self {
            ReplicaState::Resharding | ReplicaState::ReshardingScaleDown => true,
            _ => false,
        }
    }
}

/// How strictly a write is ordered against other writes.
#[derive(Clone, Copy, Debug, PartialEq, Eq, Structural)]
pub enum WriteOrdering {
    /// No requirement for consistency
    Weak,
    /// Ordered by the highest replica that is alive
    Medium,
    /// Ordered by the highest replica
    Strong,
}

impl WriteOrdering {
    /// Whether writes of this ordering take their clock ticks one after the other.
    pub open spec fn spec_is_ordered(self) -> bool {
        self is Medium || self is Strong
    }

    /// Whether writes of this ordering take their clock ticks one after the other.
    #[verifier::when_used_as_spec(spec_is_ordered)]
    pub fn is_ordered(self) -> (ordered: bool)
        ensures
            ordered == self.spec_is_ordered(),
    {
        match self {
            WriteOrdering::Strong | WriteOrdering::Medium => true,
            WriteOrdering::Weak => false,
        }
    }

    /// The name that messages give the ordering.
    pub open spec fn spec_name(self) -> Seq<char> {
        match self {
            WriteOrdering::Weak => "Weak"@,
            WriteOrdering::Medium => "Medium"@,
            WriteOrdering::Strong => "Strong"@,
        }
    }

    /// The name that messages give the ordering.
    pub fn name(self) -> (name: &'static str)
        ensures
            name@ == self.spec_name(),
    {
        match self {
            WriteOrdering::Weak => "Weak",
            WriteOrdering::Medium => "Medium",
            WriteOrdering::Strong => "Strong",
        }
    }
}

/// What a replica says of an update that it took.
#[derive(Clone, Copy, Debug, PartialEq, Eq, Structural)]
pub enum UpdateStatus {
    /// Accepted, not yet applied
    Acknowledged,
    /// Applied
    Completed,
    /// Refused, because the replica has seen a newer tick of the same clock
    ClockRejected,
    /// Accepted, but not applied within the time that the caller would wait
    WaitTimeout,
}

impl UpdateStatus {
    /// Rank of a status where several replicas are summed up: `WaitTimeout` over `Completed`
    /// over `Acknowledged` over `ClockRejected`.
    pub open spec fn spec_priority(self) -> u8 {
        match self {
            UpdateStatus::ClockRejected => 0,
            UpdateStatus::Acknowledged => 1,
            UpdateStatus::Completed => 2,
            UpdateStatus::WaitTimeout => 3,
        }
    }

    /// Rank of a status where several replicas are summed up.
    #[verifier::when_used_as_spec(spec_priority)]
    pub fn priority(self) -> (rank: u8)
        ensures
            rank == self.spec_priority(),
    {
        match self {
            UpdateStatus::ClockRejected => 0,
            UpdateStatus::Acknowledged => 1,
            UpdateStatus::Completed => 2,
            UpdateStatus::WaitTimeout => 3,
        }
    }
}

/// One tick of a logical clock of a peer.
#[derive(Clone, Copy, Debug, PartialEq, Eq, Structural)]
pub struct ClockTag {
    /// Peer that owns the clock
    pub peer_id: PeerId,
    /// Clock among those of the peer
    pub clock_id: u32,
    /// Tick of the clock
    pub clock_tick: u64,
    /// Tells apart two clocks that were given the same number
    pub token: u64,
    /// Whether replicas in recovery apply the operation too
    pub force: bool,
}

impl ClockTag {
    /// A tag that no replica is forced to accept.
    pub fn new_with_token(peer_id: PeerId, clock_id: u32, clock_tick: u64, token: u64) -> (tag:
        ClockTag)
        ensures
            tag == (ClockTag { peer_id, clock_id, clock_tick, token, force: false }),
    {
        ClockTag { peer_id, clock_id, clock_tick, token, force: false }
    }
}

/// Answer of a replica that took an update.
#[derive(Clone, Copy, Debug, PartialEq, Eq, Structural)]
pub struct UpdateResult {
    /// Number of the operation on the replica
    pub operation_id: Option<u64>,
    /// What became of the operation
    pub status: UpdateStatus,
    /// Newest tick of the operation's clock that the replica has seen
    pub clock_tag: Option<ClockTag>,
}

/// An error that came back from elsewhere: from a replica, a limiter or a background task.
#[derive(Debug, PartialEq, Eq)]
pub struct ReplicaError {
    /// The error as it prints
    pub text: String,
    /// Whether the same request may succeed later
    pub transient: bool,
    /// Whether the request named a point that is not there
    pub missing_point: bool,
    /// Whether the replica was not in the state that the request expected
    pub pre_condition_failed: bool,
}

impl Clone for ReplicaError {
    fn clone(&self) -> (copy: ReplicaError)
        ensures
            copy == *self,
    {
        ReplicaError {
            text: self.text.clone(),
            transient: self.transient,
            missing_point: self.missing_point,
            pre_condition_failed: self.pre_condition_failed,
        }
    }
}

/// What an update fails with.
#[derive(Debug, PartialEq, Eq)]
pub enum CollectionError {
    /// The service could not do what was asked
    ServiceError { error: String },
    /// Something took longer than the caller would wait
    Timeout { timeout: Duration, description: String },
    /// An error from elsewhere, handed on
    Replica(ReplicaError),
}

/// What an update fails with, with its texts as sequences of characters.
pub enum CollectionErrorView {
    ServiceError { error: Seq<char> },
    Timeout { timeout: Duration, description: Seq<char> },
    Replica(ReplicaError),
}

impl View for CollectionError {
    type V = CollectionErrorView;

    open spec fn view(&self) -> CollectionErrorView {
        match *self {
            CollectionError::ServiceError { error } => CollectionErrorView::ServiceError {
                error: error@,
            },
            CollectionError::Timeout { timeout, description } => CollectionErrorView::Timeout {
                timeout,
                description: description@,
            },
            CollectionError::Replica(error) => CollectionErrorView::Replica(error),
        }
    }
}

impl CollectionError {
    /// A failure of the service, described by `error`.
    pub fn service_error(error: String) -> (e: CollectionError)
        ensures
            e@ == (CollectionErrorView::ServiceError { error: error@ }),
    {
        CollectionError::ServiceError { error }
    }

    /// Something took longer than `timeout`.
    pub fn timeout(timeout: Duration, description: String) -> (e: CollectionError)
        ensures
            e@ == (CollectionErrorView::Timeout { timeout, description: description@ }),
    {
        CollectionError::Timeout { timeout, description }
    }
}

} // verus!
