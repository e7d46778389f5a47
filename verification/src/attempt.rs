//! One attempt to apply an update to all replicas of a shard.

use vstd::prelude::*;
use crate::failures::{is_deactivated, Deactivation};
use crate::merge::{
    any_clock_rejected, any_completed, failures_of, has_clock_rejected, has_completed,
    is_merge_of, is_newest_echo, newest_echoed_tick, partition_replies, successes_of, Reply,
};
use crate::messages::{
    first_failure_message, first_failure_text, no_source_of_truth_message, no_source_of_truth_text,
};
use crate::replica_set::{ReplicaSetView, ShardReplicaSet};
use crate::types::{
    ClockTag, CollectionError, CollectionErrorView, PeerId, ReplicaError, ReplicaState,
    UpdateResult,
};

verus! {

/// How many replicas a shard has.
#[derive(Clone, Copy, Debug, PartialEq, Eq, Structural)]
pub struct ReplicaCount {
    /// Whether there is a replica on this peer
    pub local: bool,
    /// How many replicas there are on other peers
    pub remotes: usize,
}

impl ReplicaCount {
    /// The number of all replicas.
    pub open spec fn total(self) -> nat {
        self.remotes as nat + if self.local {
            1nat
        } else {
            0nat
        }
    }
}

/// The replicas that an attempt is meant for.
#[derive(Debug, PartialEq, Eq)]
pub struct UpdateTargets {
    /// Remote peers that are sent the update, in order
    pub remotes: Vec<PeerId>,
    /// How many replicas there are, whether or not they are sent the update
    pub replicas: ReplicaCount,
    /// Stands in for the remote replicas, if there is one
    pub hook: Option<u64>,
}

/// How the local replica takes part in an attempt.
#[derive(Clone, Copy, Debug, PartialEq, Eq, Structural)]
pub struct LocalDispatch {
    /// Whether the local replica is waited for
    pub wait: bool,
    /// Whether the update first has to pass the write rate limiter
    pub check_rate_limit: bool,
}

/// Answers that were good enough for an update to be accepted.
#[derive(Debug, PartialEq, Eq)]
pub struct Accepted {
    /// The replicas that took the update, and what they answered
    pub successes: Vec<(PeerId, UpdateResult)>,
    /// The first failure, or nothing
    pub failure_error: String,
}

/// Where the answers of the replicas leave an attempt.
#[derive(Debug, PartialEq, Eq)]
pub enum Decision {
    /// Too few replicas took the update
    Failed(CollectionError),
    /// Enough replicas took it, but some of the others have to be deactivated first
    AwaitDeactivation { peer_ids: Vec<PeerId>, accepted: Accepted },
    /// Enough replicas took it
    Conclude(Accepted),
}

/// What the answers of the replicas lead to.
#[derive(Debug, PartialEq, Eq)]
pub struct Assessment {
    /// Tick to which the clock of the update is advanced, if it is behind
    pub advance_clock_to: Option<u64>,
    /// Replicas to deactivate, in order
    pub deactivations: Vec<Deactivation>,
    /// Where the attempt stands
    pub decision: Decision,
}

/// The failures that may pass by themselves.
pub open spec fn transient_failures(failures: Seq<(PeerId, ReplicaError)>) -> Seq<
    (PeerId, ReplicaError),
> {
    failures.filter(|failure: (PeerId, ReplicaError)| failure.1.transient)
}

impl ReplicaSetView {
    /// The remote peers that are sent updates, in order.
    pub open spec fn updatable_remotes(self) -> Seq<PeerId> {
        self.remotes.filter(|peer_id: PeerId| self.is_peer_updatable(peer_id))
    }

    /// How many replicas the shard has.
    pub open spec fn replica_count(self) -> ReplicaCount {
        ReplicaCount { local: self.has_local, remotes: self.remotes.len() as usize }
    }

    /// Whether any replica at all can be sent an update.
    pub open spec fn has_updatable_replica(self) -> bool {
        ||| self.updatable_remotes().len() > 0
        ||| self.has_local && self.is_peer_updatable(self.this_peer_id)
    }

    /// Whether `targets` are the replicas that an attempt is meant for.
    pub open spec fn are_targets(self, targets: UpdateTargets) -> bool {
        &&& targets.remotes@ == self.updatable_remotes()
        &&& targets.replicas == self.replica_count()
        &&& targets.hook == self.ordered_write_remote_update_hook
    }

    /// How the local replica takes part in an attempt, if there is one that can be updated: a
    /// listener is not waited for, and an active replica limits the rate of updates.
    pub open spec fn local_dispatch(self, local: bool, wait: bool) -> Option<LocalDispatch> {
        let this = self.this_peer_id;
        if local && self.is_peer_updatable(this) {
            Some(
                LocalDispatch {
                    wait: wait && !(self.peers[this] is Listener),
                    check_rate_limit: self.peer_is_active(this),
                },
            )
        } else {
            None
        }
    }

    /// How many replicas have to take an update for it to be accepted in spite of failures.
    pub open spec fn minimal_success_count(self, replicas: ReplicaCount) -> nat {
        if self.write_consistency_factor as nat <= replicas.total() {
            self.write_consistency_factor as nat
        } else {
            replicas.total()
        }
    }

    /// Whether enough replicas took the update.
    pub open spec fn enough_successes(
        self,
        successes: Seq<(PeerId, UpdateResult)>,
        replicas: ReplicaCount,
    ) -> bool {
        successes.len() >= self.minimal_success_count(replicas)
    }

    /// The failures of replicas that take part in a resharding. A replica that an earlier one of
    /// them deactivates is not trusted any more, and its later failures are left out.
    pub open spec fn resharding_failures(
        self,
        failures: Seq<(PeerId, ReplicaError)>,
        update_only_existing: bool,
    ) -> Seq<(PeerId, ReplicaError)>
        decreases failures.len(),
    {
        if failures.len() == 0 {
            Seq::empty()
        } else {
            let kept = self.resharding_failures(failures.drop_last(), update_only_existing);
            let disabled = self.disabling(self.deactivations(kept, update_only_existing));
            if disabled.peer_is_resharding(failures.last().0) {
                kept.push(failures.last())
            } else {
                kept
            }
        }
    }

    /// The failures that are acted upon.
    ///
    /// If enough replicas took the update, these are all failures where some replica has applied
    /// it in full, and those that may pass by themselves where none has. If too few took it,
    /// these are the failures of replicas that take part in a resharding.
    pub open spec fn handled_failures(
        self,
        successes: Seq<(PeerId, UpdateResult)>,
        failures: Seq<(PeerId, ReplicaError)>,
        replicas: ReplicaCount,
        update_only_existing: bool,
    ) -> Seq<(PeerId, ReplicaError)> {
        if !self.enough_successes(successes, replicas) {
            self.resharding_failures(failures, update_only_existing)
        } else if any_completed(successes) {
            failures
        } else {
            transient_failures(failures)
        }
    }

    /// Whether `assessment` is what the answers of the replicas lead to.
    pub open spec fn assesses_to(
        self,
        replies: Seq<Reply>,
        replicas: ReplicaCount,
        clock_tag: ClockTag,
        wait: bool,
        update_only_existing: bool,
        assessment: Assessment,
    ) -> bool {
        let successes = successes_of(replies);
        let failures = failures_of(replies);
        let handled = self.handled_failures(successes, failures, replicas, update_only_existing);
        &&& is_newest_echo(successes, clock_tag, assessment.advance_clock_to)
        &&& assessment.deactivations@ == self.deactivations(handled, update_only_existing)
        &&& if failures.len() > 0 && !self.enough_successes(successes, replicas) {
            &&& assessment.decision matches Decision::Failed(error)
            &&& error@ == CollectionErrorView::Replica(failures[0].1)
        } else if wait && self.any_holds_up(handled, update_only_existing) {
            &&& assessment.decision matches Decision::AwaitDeactivation { peer_ids, accepted }
            &&& peer_ids@ == handled.map_values(|failure: (PeerId, ReplicaError)| failure.0)
            &&& accepted.successes@ == successes
            &&& accepted.failure_error@ == first_failure_text(failures)
        } else {
            &&& assessment.decision matches Decision::Conclude(accepted)
            &&& accepted.successes@ == successes
            &&& accepted.failure_error@ == first_failure_text(failures)
        }
    }

    /// Whether any replica that took the update can be a source of truth.
    pub open spec fn any_source_of_truth(self, successes: Seq<(PeerId, UpdateResult)>) -> bool {
        exists|i: int|
            0 <= i < successes.len() && self.peer_can_be_source_of_truth(
                (#[trigger] successes[i]).0,
            )
    }

    /// Whether `result` is what an accepted attempt comes to: an error if no replica that took
    /// the update can be a source of truth, nothing if any replica refused it because of its
    /// clock, and the sum of the answers otherwise.
    pub open spec fn concludes_to(
        self,
        accepted: Accepted,
        result: Result<Option<UpdateResult>, CollectionError>,
    ) -> bool {
        let successes = accepted.successes@;
        if !self.any_source_of_truth(successes) {
            &&& result matches Err(error)
            &&& error@ == (CollectionErrorView::ServiceError {
                error: no_source_of_truth_text(accepted.failure_error@),
            })
        } else if any_clock_rejected(successes) {
            result == Ok::<Option<UpdateResult>, CollectionError>(None)
        } else {
            &&& result matches Ok(Some(merged))
            &&& is_merge_of(merged, successes)
        }
    }
}

/// Filtering one more item either keeps it behind the others or leaves it out.
proof fn lemma_filter_next<A>(s: Seq<A>, pred: spec_fn(A) -> bool, i: int)
    requires
        0 <= i < s.len(),
    ensures
        s.take(i + 1).filter(pred) == if pred(s[i]) {
            s.take(i).filter(pred).push(s[i])
        } else {
            s.take(i).filter(pred)
        },
{
    reveal(Seq::filter);
    assert(s.take(i + 1).drop_last() =~= s.take(i));
}

/// Keeps the failures that may pass by themselves.
fn keep_transient(failures: &[(PeerId, ReplicaError)]) -> (kept: Vec<(PeerId, ReplicaError)>)
    ensures
        kept@ == transient_failures(failures@),
{
    let ghost transient = |failure: (PeerId, ReplicaError)| failure.1.transient;
    let mut kept: Vec<(PeerId, ReplicaError)> = Vec::new();
    let mut i: usize = 0;
    reveal(Seq::filter);
    while i < failures.len()
        invariant
            i <= failures.len(),
            transient == (|failure: (PeerId, ReplicaError)| failure.1.transient),
            kept@ == failures@.take(i as int).filter(transient),
        decreases failures.len() - i,
    {
        proof {
            lemma_filter_next(failures@, transient, i as int);
        }
        if failures[i].1.transient {
            kept.push((failures[i].0, failures[i].1.clone()));
        }
        i += 1;
    }
    assert(failures@.take(failures@.len() as int) =~= failures@);
    kept
}

/// The peers that the failures are about.
fn peers_of(failures: &[(PeerId, ReplicaError)]) -> (peer_ids: Vec<PeerId>)
    ensures
        peer_ids@ == failures@.map_values(|failure: (PeerId, ReplicaError)| failure.0),
{
    let mut peer_ids: Vec<PeerId> = Vec::new();
    let mut i: usize = 0;
    while i < failures.len()
        invariant
            i <= failures.len(),
            peer_ids@.len() == i,
            forall|j: int| 0 <= j < i ==> #[trigger] peer_ids@[j] == failures@[j].0,
        decreases failures.len() - i,
    {
        peer_ids.push(failures[i].0);
        i += 1;
    }
    assert(peer_ids@ =~= failures@.map_values(|failure: (PeerId, ReplicaError)| failure.0));
    peer_ids
}

impl ShardReplicaSet {
    /// The remote peers that are sent updates, in order.
    fn updatable_remotes(&self) -> (peer_ids: Vec<PeerId>)
        ensures
            peer_ids@ == self@.updatable_remotes(),
    {
        let ghost updatable = |peer_id: PeerId| self@.is_peer_updatable(peer_id);
        let mut peer_ids: Vec<PeerId> = Vec::new();
        let mut i: usize = 0;
        reveal(Seq::filter);
        while i < self.remotes.len()
            invariant
                i <= self.remotes.len(),
                updatable == (|peer_id: PeerId| self@.is_peer_updatable(peer_id)),
                peer_ids@ == self.remotes@.take(i as int).filter(updatable),
            decreases self.remotes.len() - i,
        {
            proof {
                lemma_filter_next(self.remotes@, updatable, i as int);
            }
            if self.is_peer_updatable(self.remotes[i]) {
                peer_ids.push(self.remotes[i]);
            }
            i += 1;
        }
        assert(self.remotes@.take(self.remotes@.len() as int) =~= self.remotes@);
        peer_ids
    }

    /// The replicas that an attempt is meant for, or an error if there is none.
    pub fn select_update_targets(&self) -> (targets: Result<UpdateTargets, CollectionError>)
        ensures
            match targets {
                Ok(targets) => self@.has_updatable_replica() && self@.are_targets(targets),
                Err(error) => {
                    &&& !self@.has_updatable_replica()
                    &&& error@ == (CollectionErrorView::ServiceError {
                        error: self@.no_active_replica_text(),
                    })
                },
            },
    {
        let remotes = self.updatable_remotes();
        let local_is_updatable = self.has_local && self.is_peer_updatable(self.this_peer_id());
        if remotes.len() == 0 && !local_is_updatable {
            return Err(CollectionError::service_error(self.no_active_replica_message()));
        }
        let replicas = ReplicaCount { local: self.has_local, remotes: self.remotes.len() };
        Ok(UpdateTargets { remotes, replicas, hook: self.ordered_write_remote_update_hook })
    }

    /// How the local replica takes part in an attempt, if there is one that can be updated.
    pub fn plan_local_dispatch(&self, local: bool, wait: bool) -> (dispatch: Option<LocalDispatch>)
        ensures
            dispatch == self@.local_dispatch(local, wait),
    {
        let this_peer_id = self.this_peer_id();
        if !local || !self.is_peer_updatable(this_peer_id) {
            return None;
        }
        let local_wait = match self.peer_state(this_peer_id) {
            Some(ReplicaState::Listener) => false,
            _ => wait,
        };
        Some(
            LocalDispatch {
                wait: local_wait,
                // The write rate limiter is only checked for an active replica
                check_rate_limit: self.peer_is_active(this_peer_id),
            },
        )
    }

    /// How many replicas have to take an update for it to be accepted in spite of failures.
    pub fn minimal_success_count(&self, replicas: ReplicaCount) -> (count: usize)
        ensures
            count as nat == self@.minimal_success_count(replicas),
    {
        let factor: usize = self.write_consistency_factor as usize;
        if replicas.remotes >= factor {
            factor
        } else if replicas.local {
            replicas.remotes + 1
        } else {
            replicas.remotes
        }
    }

    /// What the failures of replicas that take part in a resharding lead to.
    fn handle_resharding_failures(
        &self,
        failures: &[(PeerId, ReplicaError)],
        update_only_existing: bool,
    ) -> (deactivations: Vec<Deactivation>)
        ensures
            deactivations@ == self@.deactivations(
                self@.resharding_failures(failures@, update_only_existing),
                update_only_existing,
            ),
    {
        let mut deactivations: Vec<Deactivation> = Vec::new();
        let mut i: usize = 0;
        while i < failures.len()
            invariant
                i <= failures.len(),
                deactivations@ == self@.deactivations(
                    self@.resharding_failures(failures@.take(i as int), update_only_existing),
                    update_only_existing,
                ),
            decreases failures.len() - i,
        {
            let ghost kept = self@.resharding_failures(
                failures@.take(i as int),
                update_only_existing,
            );
            proof {
                assert(failures@.take(i + 1).drop_last() =~= failures@.take(i as int));
                assert(kept.push(failures@[i as int]).drop_last() =~= kept);
            }
            let peer_id: PeerId = failures[i].0;
            if self.peer_is_resharding(peer_id) && !is_deactivated(&deactivations, peer_id) {
                let (deactivation, _) = self.handle_failed_replica(
                    &failures[i],
                    update_only_existing,
                );
                match deactivation {
                    Some(deactivation) => {
                        deactivations.push(deactivation);
                    },
                    None => {},
                }
            }
            i += 1;
        }
        assert(failures@.take(failures@.len() as int) =~= failures@);
        deactivations
    }

    /// Decides what the answers of the replicas lead to.
    ///
    /// If enough replicas took the update, those that failed are deactivated, and recover from
    /// another replica later. If too few took it, the first failure is handed on.
    pub fn assess_replies(
        &self,
        replies: Vec<Reply>,
        replicas: ReplicaCount,
        clock_tag: ClockTag,
        wait: bool,
        update_only_existing: bool,
    ) -> (assessment: Assessment)
        ensures
            self@.assesses_to(
                replies@,
                replicas,
                clock_tag,
                wait,
                update_only_existing,
                assessment,
            ),
    {
        let minimal_success_count: usize = self.minimal_success_count(replicas);
        let (successes, failures) = partition_replies(replies);

        // Advance the clock if some replica echoed a newer tick
        let advance_clock_to = newest_echoed_tick(&successes, clock_tag);
        let failure_error = first_failure_message(&failures);

        if successes.len() < minimal_success_count {
            let deactivations = self.handle_resharding_failures(&failures, update_only_existing);
            let mut failures = failures;
            if failures.len() > 0 {
                let (_, error) = failures.swap_remove(0);
                return Assessment {
                    advance_clock_to,
                    deactivations,
                    decision: Decision::Failed(CollectionError::Replica(error)),
                };
            }
            return Assessment {
                advance_clock_to,
                deactivations,
                decision: Decision::Conclude(Accepted { successes, failure_error }),
            };
        }

        // If any replica has applied the update in full, no failure can be ignored
        let handled = if has_completed(&successes) {
            failures
        } else {
            keep_transient(&failures)
        };
        let handling = self.handle_failed_replicas(&handled, update_only_existing);
        let accepted = Accepted { successes, failure_error };
        let decision = if wait && handling.wait_for_deactivation {
            Decision::AwaitDeactivation { peer_ids: peers_of(&handled), accepted }
        } else {
            Decision::Conclude(accepted)
        };
        Assessment { advance_clock_to, deactivations: handling.deactivations, decision }
    }

    /// Whether any replica that took the update can be a source of truth, once the replicas of
    /// the deactivations are disabled.
    fn has_source_of_truth(
        &self,
        successes: &[(PeerId, UpdateResult)],
        deactivations: &[Deactivation],
    ) -> (found: bool)
        ensures
            found == self@.disabling(deactivations@).any_source_of_truth(successes@),
    {
        let mut i: usize = 0;
        while i < successes.len()
            invariant
                i <= successes.len(),
                forall|j: int|
                    0 <= j < i ==> !self@.disabling(deactivations@).peer_can_be_source_of_truth(
                        (#[trigger] successes@[j]).0,
                    ),
            decreases successes.len() - i,
        {
            let peer_id: PeerId = successes[i].0;
            if self.peer_can_be_source_of_truth(peer_id) && !is_deactivated(
                deactivations,
                peer_id,
            ) {
                return true;
            }
            i += 1;
        }
        false
    }

    /// Decides what an accepted attempt comes to, once the replicas of the deactivations are
    /// disabled. Without a result, the update is tried again.
    pub fn conclude_attempt(&self, accepted: &Accepted, deactivations: &[Deactivation]) -> (result:
        Result<Option<UpdateResult>, CollectionError>)
        ensures
            self@.disabling(deactivations@).concludes_to(*accepted, result),
    {
        // Successes must have applied to at least one replica that can be a source of truth
        if !self.has_source_of_truth(&accepted.successes, deactivations) {
            return Err(
                CollectionError::service_error(no_source_of_truth_message(&accepted.failure_error)),
            );
        }
        if has_clock_rejected(&accepted.successes) {
            return Ok(None);
        }
        Ok(Some(ShardReplicaSet::merge_successful_update_results(&accepted.successes)))
    }
}

} // verus!
