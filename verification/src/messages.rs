//! The messages that updates fail with.

use vstd::prelude::*;
use crate::duration::{duration_debug, Duration};
use crate::replica_set::{ReplicaSetView, ShardReplicaSet};
use crate::text::{decimal, optional_duration_debug, push_decimal, push_optional_duration};
use crate::types::{PeerId, ReplicaError, WriteOrdering};

verus! {

/// Maximum number of attempts for applying an update with a new clock tick.
///
/// An update that is rejected because of an old tick is tried again with a new one.
pub const UPDATE_MAX_CLOCK_REJECTED_RETRIES: usize = 3;

/// How many seconds failed replicas are given to be deactivated.
pub const DEFAULT_SHARD_DEACTIVATION_TIMEOUT_SECS: u64 = 30;

impl ReplicaSetView {
    /// No peer can lead the update.
    pub open spec fn no_leader_text(self, ordering: WriteOrdering) -> Seq<char> {
        "Cannot update shard "@ + self.collection_id + ":"@ + decimal(self.shard_id as nat)
            + " with "@ + ordering.spec_name()
            + " ordering because no leader could be selected"@
    }

    /// The peer that should lead the update holds no replica any more.
    pub open spec fn leader_removed_text(self) -> Seq<char> {
        "Cannot forward update to shard "@ + decimal(self.shard_id as nat)
            + " because was removed from the replica set"@
    }

    /// No replica can be sent the update.
    pub open spec fn no_active_replica_text(self) -> Seq<char> {
        "The replica set for shard "@ + decimal(self.shard_id as nat) + " on peer "@ + decimal(
            self.this_peer_id as nat,
        ) + " has no active replica"@
    }

    /// Failed replicas were not deactivated in time.
    pub open spec fn deactivation_timed_out_text(self, failure_error: Seq<char>) -> Seq<char> {
        "Some replica of shard "@ + decimal(self.shard_id as nat)
            + " failed to apply operation and deactivation timed out after "@ + duration_debug(
            DEFAULT_SHARD_DEACTIVATION_TIMEOUT_SECS,
            0,
        ) + ". Consistency of this update is not guaranteed. Please retry. "@ + failure_error
    }
}

/// The leader could not be reached, or failed for the time being.
pub open spec fn leader_failed_text(
    ordering: WriteOrdering,
    leader_peer: PeerId,
    error: Seq<char>,
) -> Seq<char> {
    "Failed to apply update with "@ + ordering.spec_name() + " ordering via leader peer "@
        + decimal(leader_peer as nat) + ": "@ + error
}

/// No clock became free in time.
pub open spec fn clock_timed_out_text(timeout: Option<Duration>) -> Seq<char> {
    "Failed to acquire clock for update operation within "@ + optional_duration_debug(timeout)
}

/// The first failure of an attempt, or nothing if there was none.
pub open spec fn first_failure_text(failures: Seq<(PeerId, ReplicaError)>) -> Seq<char> {
    if failures.len() > 0 {
        "Failed peer: "@ + decimal(failures[0].0 as nat) + ", error: "@ + failures[0].1.text@
    } else {
        Seq::empty()
    }
}

/// No replica that holds everything took the update.
pub open spec fn no_source_of_truth_text(failure_error: Seq<char>) -> Seq<char> {
    "Failed to apply operation to at least one `Active` replica. Consistency of this update is not guaranteed. Please retry. "@
        + failure_error
}

/// Every attempt was rejected.
pub open spec fn attempts_exhausted_text(operation: Seq<char>) -> Seq<char> {
    "Failed to apply operation "@ + operation + " after "@ + decimal(
        UPDATE_MAX_CLOCK_REJECTED_RETRIES as nat,
    ) + " attempts, all attempts were rejected"@
}

impl ShardReplicaSet {
    pub(crate) fn no_leader_message(&self, ordering: WriteOrdering) -> (text: String)
        ensures
            text@ == self@.no_leader_text(ordering),
    {
        let mut text = String::new();
        text.append("Cannot update shard ");
        text.append(self.collection_id.as_str());
        text.append(":");
        push_decimal(&mut text, self.shard_id as u64);
        text.append(" with ");
        text.append(ordering.name());
        text.append(" ordering because no leader could be selected");
        assert(text@ =~= self@.no_leader_text(ordering));
        text
    }

    pub(crate) fn leader_removed_message(&self) -> (text: String)
        ensures
            text@ == self@.leader_removed_text(),
    {
        let mut text = String::new();
        text.append("Cannot forward update to shard ");
        push_decimal(&mut text, self.shard_id as u64);
        text.append(" because was removed from the replica set");
        assert(text@ =~= self@.leader_removed_text());
        text
    }

    pub(crate) fn no_active_replica_message(&self) -> (text: String)
        ensures
            text@ == self@.no_active_replica_text(),
    {
        let mut text = String::new();
        text.append("The replica set for shard ");
        push_decimal(&mut text, self.shard_id as u64);
        text.append(" on peer ");
        push_decimal(&mut text, self.this_peer_id);
        text.append(" has no active replica");
        assert(text@ =~= self@.no_active_replica_text());
        text
    }

    pub(crate) fn deactivation_timed_out_message(&self, failure_error: &String) -> (text: String)
        ensures
            text@ == self@.deactivation_timed_out_text(failure_error@),
    {
        let mut text = String::new();
        text.append("Some replica of shard ");
        push_decimal(&mut text, self.shard_id as u64);
        text.append(" failed to apply operation and deactivation timed out after ");
        text.append(deactivation_timeout().debug_text().as_str());
        text.append(". Consistency of this update is not guaranteed. Please retry. ");
        text.append(failure_error.as_str());
        assert(text@ =~= self@.deactivation_timed_out_text(failure_error@));
        text
    }
}

/// How long failed replicas are given to be deactivated.
pub fn deactivation_timeout() -> (timeout: Duration)
    ensures
        timeout@ == (DEFAULT_SHARD_DEACTIVATION_TIMEOUT_SECS, 0u32),
{
    Duration::from_secs(DEFAULT_SHARD_DEACTIVATION_TIMEOUT_SECS)
}

pub(crate) fn leader_failed_message(
    ordering: WriteOrdering,
    leader_peer: PeerId,
    error: &String,
) -> (text: String)
    ensures
        text@ == leader_failed_text(ordering, leader_peer, error@),
{
    let mut text = String::new();
    text.append("Failed to apply update with ");
    text.append(ordering.name());
    text.append(" ordering via leader peer ");
    push_decimal(&mut text, leader_peer);
    text.append(": ");
    text.append(error.as_str());
    assert(text@ =~= leader_failed_text(ordering, leader_peer, error@));
    text
}

pub(crate) fn clock_timed_out_message(timeout: Option<Duration>) -> (text: String)
    ensures
        text@ == clock_timed_out_text(timeout),
{
    let mut text = String::new();
    text.append("Failed to acquire clock for update operation within ");
    push_optional_duration(&mut text, timeout);
    assert(text@ =~= clock_timed_out_text(timeout));
    text
}

pub(crate) fn first_failure_message(failures: &[(PeerId, ReplicaError)]) -> (text: String)
    ensures
        text@ == first_failure_text(failures@),
{
    let mut text = String::new();
    if failures.len() > 0 {
        text.append("Failed peer: ");
        push_decimal(&mut text, failures[0].0);
        text.append(", error: ");
        text.append(failures[0].1.text.as_str());
    }
    assert(text@ =~= first_failure_text(failures@));
    text
}

pub(crate) fn no_source_of_truth_message(failure_error: &String) -> (text: String)
    ensures
        text@ == no_source_of_truth_text(failure_error@),
{
    let mut text = String::new();
    text.append(
        "Failed to apply operation to at least one `Active` replica. Consistency of this update is not guaranteed. Please retry. ",
    );
    text.append(failure_error.as_str());
    assert(text@ =~= no_source_of_truth_text(failure_error@));
    text
}

/// The message of an update whose every attempt was rejected.
pub fn attempts_exhausted_message(operation: &String) -> (text: String)
    ensures
        text@ == attempts_exhausted_text(operation@),
{
    let mut text = String::new();
    text.append("Failed to apply operation ");
    text.append(operation.as_str());
    text.append(" after ");
    push_decimal(&mut text, UPDATE_MAX_CLOCK_REJECTED_RETRIES as u64);
    text.append(" attempts, all attempts were rejected");
    assert(text@ =~= attempts_exhausted_text(operation@));
    text
}

} // verus!
