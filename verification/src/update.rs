//! An update from its first routing to its last answer, as a machine that is driven from
//! outside.
//!
//! [`ShardReplicaSet::update_with_consistency`] starts an update. Every step names the action
//! that comes next; what came of it is handed to [`ShardReplicaSet::update`], together with the
//! replica set as it is by then. Between two steps anything may happen to the replica set.

use vstd::prelude::*;
use crate::attempt::{
    Accepted, Assessment, Decision, LocalDispatch, ReplicaCount, UpdateTargets,
};
use crate::duration::Duration;
use crate::failures::{lemma_disabling_nothing, Deactivation};
use crate::merge::Reply;
use crate::messages::{
    attempts_exhausted_message, attempts_exhausted_text, clock_timed_out_message,
    clock_timed_out_text, deactivation_timeout, leader_failed_message, leader_failed_text,
    DEFAULT_SHARD_DEACTIVATION_TIMEOUT_SECS, UPDATE_MAX_CLOCK_REJECTED_RETRIES,
};
use crate::replica_set::{ReplicaSetView, ShardReplicaSet};
use crate::types::{
    ClockTag, CollectionError, CollectionErrorView, PeerId, ReplicaError, UpdateResult,
    WriteOrdering,
};

verus! {

/// What a client asks for.
#[derive(Debug, PartialEq, Eq)]
pub struct UpdateRequest {
    /// The operation as it prints
    pub operation: String,
    /// Whether to wait until the operation is applied
    pub wait: bool,
    /// How long to wait at most
    pub timeout: Option<Duration>,
    /// How strictly the operation is ordered against others
    pub ordering: WriteOrdering,
    /// Whether points that are not there are passed over
    pub update_only_existing: bool,
}

/// One attempt among those of an update.
#[derive(Clone, Copy, Debug, PartialEq, Eq, Structural)]
pub struct Attempt {
    /// Counts the attempts, from one
    pub number: usize,
    /// The clock that all attempts of the update share
    pub clock_id: u32,
}

/// What is sent to the replicas in one attempt.
#[derive(Debug, PartialEq, Eq)]
pub struct Dispatch {
    /// Tag of the operation
    pub clock_tag: ClockTag,
    /// How the local replica takes part, if it does
    pub local: Option<LocalDispatch>,
    /// Remote peers that are sent the operation, in order
    pub remotes: Vec<PeerId>,
    /// Whether the remote replicas are waited for
    pub wait: bool,
    /// How long replicas are waited for at most
    pub timeout: Option<Duration>,
    /// How many replicas are updated at once, if that is limited
    pub concurrency: Option<usize>,
    /// Stands in for the remote replicas, if there is one
    pub hook: Option<u64>,
}

/// What an update is waiting for.
#[derive(Debug, PartialEq, Eq)]
pub enum UpdatePhase {
    /// The answer of the leader
    Forwarding { leader_peer: PeerId },
    /// A free clock
    AcquiringClock,
    /// The list of replicas, which then stays as it is until all have answered
    ReadingReplicas { attempt: Attempt },
    /// The write ordering lock
    LockingOrder { attempt: Attempt, targets: UpdateTargets },
    /// The next tick of the clock
    Ticking { attempt: Attempt, targets: UpdateTargets },
    /// The write ordering lock to be free again
    UnlockingOrder { attempt: Attempt, targets: UpdateTargets, clock_tag: ClockTag },
    /// The write rate limiter
    CheckingRateLimit { attempt: Attempt, replicas: ReplicaCount, dispatch: Dispatch },
    /// The answers of the replicas
    Dispatching { attempt: Attempt, replicas: ReplicaCount, clock_tag: ClockTag },
    /// Failed replicas to be deactivated
    Deactivating { attempt: Attempt, accepted: Accepted },
    /// Nothing
    Finished,
}

/// An update under way.
#[derive(Debug, PartialEq, Eq)]
pub struct Update {
    /// What the client asked for
    pub request: UpdateRequest,
    /// Whether hardware usage is measured by a measurement that is thrown away
    pub disposable_hw_measurement: bool,
    /// What the update is waiting for
    pub phase: UpdatePhase,
}

/// What has to be done next for an update.
#[derive(Debug, PartialEq, Eq)]
pub enum UpdateAction {
    /// Send the operation to the leader
    Forward { leader_peer: PeerId },
    /// Wait for a free clock
    AcquireClock { timeout: Duration },
    /// Find out which replicas there are
    ReadReplicas,
    /// Take the write ordering lock
    LockOrder,
    /// Tick the clock once
    TickClock,
    /// Give the write ordering lock back
    UnlockOrder,
    /// Ask the write rate limiter of the local replica
    CheckRateLimit,
    /// Send the operation to the replicas
    Dispatch(Dispatch),
    /// Wait until the replicas are deactivated
    AwaitDeactivation { peer_ids: Vec<PeerId>, timeout: Duration },
    /// Answer the client
    Finish(Result<UpdateResult, CollectionError>),
}

/// What came of the last action of an update.
#[derive(Debug, PartialEq, Eq)]
pub enum UpdateEvent {
    /// The leader answered
    Forwarded(Result<UpdateResult, ReplicaError>),
    /// The leader could not be asked, because it holds no replica any more; the text and whether
    /// it may pass are those of the error that this is
    LeaderRemoved { text: String, transient: bool },
    /// A clock was free
    ClockAcquired { clock_id: u32 },
    /// No clock became free in time
    ClockTimedOut,
    /// The replicas are known
    ReplicasRead,
    /// The write ordering lock is taken
    OrderLocked,
    /// The clock has ticked; the token is that of the new tag
    Ticked { clock_tick: u64, token: u64 },
    /// The write ordering lock is free again
    OrderUnlocked,
    /// The write rate limiter answered
    RateLimitChecked(Result<(), ReplicaError>),
    /// All replicas answered
    Replied(Vec<Reply>),
    /// Failed replicas were deactivated in time or not, or the wait itself failed
    DeactivationAwaited(Result<bool, ReplicaError>),
}

/// One step of an update.
#[derive(Debug, PartialEq, Eq)]
pub struct UpdateStep {
    /// The update after the step
    pub update: Update,
    /// Tick to which the clock of the update is advanced, if it is behind
    pub advance_clock_to: Option<u64>,
    /// Replicas to deactivate, in order
    pub deactivations: Vec<Deactivation>,
    /// What has to be done next
    pub action: UpdateAction,
}

/// An operation as it is sent to the leader.
#[derive(Debug, PartialEq, Eq)]
pub struct ForwardedUpdate {
    /// Where the leader stands among the remote replicas
    pub remote: usize,
    /// Tag of the operation
    pub clock_tag: Option<ClockTag>,
    /// Whether the leader is waited for
    pub wait: bool,
    /// How long it is waited for at most
    pub timeout: Option<Duration>,
    /// How strictly the operation is ordered against others
    pub ordering: WriteOrdering,
}

impl Update {
    /// Whether the update waits for an event of this kind.
    pub open spec fn spec_awaits(self, event: UpdateEvent) -> bool {
        match self.phase {
            UpdatePhase::Forwarding { .. } => event is Forwarded || event is LeaderRemoved,
            UpdatePhase::AcquiringClock => event is ClockAcquired || event is ClockTimedOut,
            UpdatePhase::ReadingReplicas { .. } => event is ReplicasRead,
            UpdatePhase::LockingOrder { .. } => event is OrderLocked,
            UpdatePhase::Ticking { .. } => event is Ticked,
            UpdatePhase::UnlockingOrder { .. } => event is OrderUnlocked,
            UpdatePhase::CheckingRateLimit { .. } => event is RateLimitChecked,
            UpdatePhase::Dispatching { .. } => event is Replied,
            UpdatePhase::Deactivating { .. } => event is DeactivationAwaited,
            UpdatePhase::Finished => false,
        }
    }

    /// Whether the update waits for an event of this kind.
    pub fn awaits(&self, event: &UpdateEvent) -> (awaited: bool)
        ensures
            awaited == self.spec_awaits(*event),
    {
        match (&self.phase, event) {
            (UpdatePhase::Forwarding { .. }, UpdateEvent::Forwarded(_)) => true,
            (UpdatePhase::Forwarding { .. }, UpdateEvent::LeaderRemoved { .. }) => true,
            (UpdatePhase::AcquiringClock, UpdateEvent::ClockAcquired { .. }) => true,
            (UpdatePhase::AcquiringClock, UpdateEvent::ClockTimedOut) => true,
            (UpdatePhase::ReadingReplicas { .. }, UpdateEvent::ReplicasRead) => true,
            (UpdatePhase::LockingOrder { .. }, UpdateEvent::OrderLocked) => true,
            (UpdatePhase::Ticking { .. }, UpdateEvent::Ticked { .. }) => true,
            (UpdatePhase::UnlockingOrder { .. }, UpdateEvent::OrderUnlocked) => true,
            (UpdatePhase::CheckingRateLimit { .. }, UpdateEvent::RateLimitChecked(_)) => true,
            (UpdatePhase::Dispatching { .. }, UpdateEvent::Replied(_)) => true,
            (UpdatePhase::Deactivating { .. }, UpdateEvent::DeactivationAwaited(_)) => true,
            _ => false,
        }
    }
}

impl UpdateRequest {
    /// How long the update waits for a clock: as long as the client would wait, or without end.
    pub open spec fn clock_timeout(self) -> (u64, u32) {
        match self.timeout {
            Some(timeout) => timeout@,
            None => (u64::MAX, 999_999_999u32),
        }
    }
}

impl UpdateStep {
    /// The step leads to `phase`, and changes nothing else.
    pub open spec fn goes_to(self, phase: UpdatePhase) -> bool {
        &&& self.update.phase == phase
        &&& self.is_quiet()
    }

    /// The step neither advances a clock nor deactivates a replica.
    pub open spec fn is_quiet(self) -> bool {
        &&& self.advance_clock_to is None
        &&& self.deactivations@.len() == 0
    }

    /// The step ends the update with a result.
    pub open spec fn succeeds_with(self, result: UpdateResult) -> bool {
        &&& self.update.phase is Finished
        &&& self.action == UpdateAction::Finish(Ok(result))
    }

    /// The step ends the update with an error.
    pub open spec fn fails_with(self, expected: CollectionErrorView) -> bool {
        &&& self.update.phase is Finished
        &&& self.action matches UpdateAction::Finish(Err(error))
        &&& error@ == expected
    }
}

/// Whether a step starts, with the given clock, the first attempt or the next one.
pub open spec fn starts_attempt(step: UpdateStep, attempt: Attempt) -> bool {
    &&& step.update.phase == (UpdatePhase::ReadingReplicas { attempt })
    &&& step.action is ReadReplicas
}

/// Whether `step` is where the result of an attempt leads: to the answer for the client, or,
/// without a result, to the next attempt if there is one left.
pub open spec fn follows_up(
    request: UpdateRequest,
    attempt: Attempt,
    result: Result<Option<UpdateResult>, CollectionError>,
    step: UpdateStep,
) -> bool {
    match result {
        Err(error) => step.fails_with(error@),
        Ok(Some(merged)) => step.succeeds_with(merged),
        Ok(None) => if attempt.number < UPDATE_MAX_CLOCK_REJECTED_RETRIES {
            let number = (attempt.number + 1) as usize;
            starts_attempt(step, Attempt { number, clock_id: attempt.clock_id })
        } else {
            step.fails_with(
                CollectionErrorView::ServiceError {
                    error: attempts_exhausted_text(request.operation@),
                },
            )
        },
    }
}

impl ReplicaSetView {
    /// Whether `step` starts an update that `leader` leads: this peer waits for a clock if it
    /// leads itself, and sends the operation to the leader otherwise.
    pub open spec fn starts_under(
        self,
        request: UpdateRequest,
        leader: Option<PeerId>,
        step: UpdateStep,
    ) -> bool {
        &&& step.update.request == request
        &&& step.is_quiet()
        &&& match leader {
            None => {
                &&& !step.update.disposable_hw_measurement
                &&& step.fails_with(
                    CollectionErrorView::ServiceError {
                        error: self.no_leader_text(request.ordering),
                    },
                )
            },
            Some(leader_peer) => {
                &&& step.update.disposable_hw_measurement == (self.peers.contains_key(leader_peer)
                    && self.peers[leader_peer].is_resharding())
                &&& if leader_peer == self.this_peer_id {
                    &&& step.update.phase is AcquiringClock
                    &&& step.action matches UpdateAction::AcquireClock { timeout }
                    &&& timeout@ == request.clock_timeout()
                } else {
                    &&& step.update.phase == (UpdatePhase::Forwarding { leader_peer })
                    &&& step.action == (UpdateAction::Forward { leader_peer })
                }
            },
        }
    }

    /// Whether `step` is the first step of an update.
    pub open spec fn starts(self, request: UpdateRequest, step: UpdateStep) -> bool {
        exists|leader: Option<PeerId>|
            {
                &&& #[trigger] self.is_leader_for(request.ordering, leader)
                &&& self.starts_under(request, leader, step)
            }
    }

    /// Whether `step` deactivates a leader that fails for the time being, and ends the update
    /// with an error that names it.
    pub open spec fn gives_leader_up(
        self,
        leader_peer: PeerId,
        ordering: WriteOrdering,
        error: Seq<char>,
        step: UpdateStep,
    ) -> bool {
        &&& step.advance_clock_to is None
        &&& step.deactivations@ == seq![
            Deactivation { peer_id: leader_peer, from_state: self.peer_state(leader_peer) },
        ]
        &&& step.fails_with(
            CollectionErrorView::ServiceError {
                error: leader_failed_text(ordering, leader_peer, error),
            },
        )
    }

    /// Whether `step` ends an update whose leader holds no replica any more.
    pub open spec fn concludes_without_leader(
        self,
        leader_peer: PeerId,
        ordering: WriteOrdering,
        text: Seq<char>,
        transient: bool,
        step: UpdateStep,
    ) -> bool {
        if transient {
            self.gives_leader_up(leader_peer, ordering, text, step)
        } else {
            &&& step.is_quiet()
            &&& step.fails_with(
                CollectionErrorView::ServiceError { error: self.leader_removed_text() },
            )
        }
    }

    /// Whether `step` ends an update with the answer of its leader.
    ///
    /// A leader that fails for the time being is deactivated.
    pub open spec fn concludes_forward(
        self,
        leader_peer: PeerId,
        ordering: WriteOrdering,
        reply: Result<UpdateResult, ReplicaError>,
        step: UpdateStep,
    ) -> bool {
        match reply {
            Ok(result) => step.is_quiet() && step.succeeds_with(result),
            Err(error) => if error.transient {
                self.gives_leader_up(leader_peer, ordering, error.text@, step)
            } else {
                step.is_quiet() && step.fails_with(CollectionErrorView::Replica(error))
            },
        }
    }

    /// Whether `step` chooses the replicas of an attempt.
    pub open spec fn chooses_targets(
        self,
        ordering: WriteOrdering,
        attempt: Attempt,
        step: UpdateStep,
    ) -> bool {
        &&& step.is_quiet()
        &&& if !self.has_updatable_replica() {
            step.fails_with(
                CollectionErrorView::ServiceError { error: self.no_active_replica_text() },
            )
        } else if ordering.is_ordered() {
            &&& step.update.phase matches UpdatePhase::LockingOrder { attempt: same, targets }
            &&& same == attempt
            &&& self.are_targets(targets)
            &&& step.action is LockOrder
        } else {
            &&& step.update.phase matches UpdatePhase::Ticking { attempt: same, targets }
            &&& same == attempt
            &&& self.are_targets(targets)
            &&& step.action is TickClock
        }
    }

    /// Whether `dispatch` is what is sent to the replicas.
    pub open spec fn is_dispatch(
        self,
        request: UpdateRequest,
        targets: UpdateTargets,
        clock_tag: ClockTag,
        dispatch: Dispatch,
    ) -> bool {
        &&& dispatch.clock_tag == clock_tag
        &&& dispatch.local == self.local_dispatch(targets.replicas.local, request.wait)
        &&& dispatch.remotes@ == targets.remotes@
        &&& dispatch.wait == request.wait
        &&& dispatch.timeout == request.timeout
        &&& dispatch.concurrency == self.update_concurrency
        &&& dispatch.hook == targets.hook
    }

    /// Whether `step` sends the operation to the replicas, or asks the write rate limiter
    /// whether it may.
    pub open spec fn dispatches(
        self,
        request: UpdateRequest,
        attempt: Attempt,
        targets: UpdateTargets,
        clock_tag: ClockTag,
        step: UpdateStep,
    ) -> bool {
        &&& step.is_quiet()
        &&& match self.local_dispatch(targets.replicas.local, request.wait) {
            Some(local) if local.check_rate_limit => {
                &&& step.update.phase matches UpdatePhase::CheckingRateLimit {
                    attempt: same,
                    replicas,
                    dispatch,
                }
                &&& same == attempt
                &&& replicas == targets.replicas
                &&& self.is_dispatch(request, targets, clock_tag, dispatch)
                &&& step.action is CheckRateLimit
            },
            _ => {
                &&& step.update.phase == (UpdatePhase::Dispatching {
                    attempt,
                    replicas: targets.replicas,
                    clock_tag,
                })
                &&& step.action matches UpdateAction::Dispatch(dispatch)
                &&& self.is_dispatch(request, targets, clock_tag, dispatch)
            },
        }
    }

    /// Whether `step` is where an accepted attempt leads.
    pub open spec fn concludes_attempt(
        self,
        request: UpdateRequest,
        attempt: Attempt,
        accepted: Accepted,
        step: UpdateStep,
    ) -> bool {
        exists|result: Result<Option<UpdateResult>, CollectionError>|
            {
                &&& #[trigger] self.concludes_to(accepted, result)
                &&& follows_up(request, attempt, result, step)
            }
    }

    /// Whether `step` is where the answers of the replicas lead. An attempt that needs no wait is
    /// concluded with the replicas already disabled that the answers deactivate.
    pub open spec fn concludes_replies(
        self,
        request: UpdateRequest,
        attempt: Attempt,
        replicas: ReplicaCount,
        clock_tag: ClockTag,
        replies: Seq<Reply>,
        step: UpdateStep,
    ) -> bool {
        exists|assessment: Assessment|
            {
                &&& #[trigger] self.assesses_to(
                    replies,
                    replicas,
                    clock_tag,
                    request.wait,
                    request.update_only_existing,
                    assessment,
                )
                &&& step.advance_clock_to == assessment.advance_clock_to
                &&& step.deactivations@ == assessment.deactivations@
                &&& match assessment.decision {
                    Decision::Failed(error) => step.fails_with(error@),
                    Decision::AwaitDeactivation { peer_ids, accepted } => {
                        &&& step.update.phase == (UpdatePhase::Deactivating { attempt, accepted })
                        &&& step.action matches UpdateAction::AwaitDeactivation {
                            peer_ids: awaited,
                            timeout,
                        }
                        &&& awaited@ == peer_ids@
                        &&& timeout@ == (DEFAULT_SHARD_DEACTIVATION_TIMEOUT_SECS, 0u32)
                    },
                    Decision::Conclude(accepted) => self.disabling(
                        assessment.deactivations@,
                    ).concludes_attempt(request, attempt, accepted, step),
                }
            }
    }

    /// Whether `step` is what follows for `update` on `event`.
    pub open spec fn steps_to(self, update: Update, event: UpdateEvent, step: UpdateStep) -> bool {
        &&& step.update.request == update.request
        &&& step.update.disposable_hw_measurement == update.disposable_hw_measurement
        &&& match (update.phase, event) {
            (UpdatePhase::Forwarding { leader_peer }, UpdateEvent::Forwarded(reply)) => {
                self.concludes_forward(leader_peer, update.request.ordering, reply, step)
            },
            (
                UpdatePhase::Forwarding { leader_peer },
                UpdateEvent::LeaderRemoved { text, transient },
            ) => {
                self.concludes_without_leader(
                    leader_peer,
                    update.request.ordering,
                    text@,
                    transient,
                    step,
                )
            },
            (UpdatePhase::AcquiringClock, UpdateEvent::ClockAcquired { clock_id }) => {
                &&& step.is_quiet()
                &&& starts_attempt(step, Attempt { number: 1, clock_id })
            },
            (UpdatePhase::AcquiringClock, UpdateEvent::ClockTimedOut) => {
                &&& step.is_quiet()
                &&& step.update.phase is Finished
                &&& step.action matches UpdateAction::Finish(
                    Err(CollectionError::Timeout { timeout, description }),
                )
                &&& timeout@ == update.request.clock_timeout()
                &&& description@ == clock_timed_out_text(update.request.timeout)
            },
            (UpdatePhase::ReadingReplicas { attempt }, UpdateEvent::ReplicasRead) => {
                self.chooses_targets(update.request.ordering, attempt, step)
            },
            (UpdatePhase::LockingOrder { attempt, targets }, UpdateEvent::OrderLocked) => {
                &&& step.goes_to(UpdatePhase::Ticking { attempt, targets })
                &&& step.action is TickClock
            },
            (
                UpdatePhase::Ticking { attempt, targets },
                UpdateEvent::Ticked { clock_tick, token },
            ) => {
                let clock_tag = ClockTag {
                    peer_id: self.this_peer_id,
                    clock_id: attempt.clock_id,
                    clock_tick,
                    token,
                    force: false,
                };
                if update.request.ordering.is_ordered() {
                    &&& step.goes_to(UpdatePhase::UnlockingOrder { attempt, targets, clock_tag })
                    &&& step.action is UnlockOrder
                } else {
                    self.dispatches(update.request, attempt, targets, clock_tag, step)
                }
            },
            (
                UpdatePhase::UnlockingOrder { attempt, targets, clock_tag },
                UpdateEvent::OrderUnlocked,
            ) => { self.dispatches(update.request, attempt, targets, clock_tag, step) },
            (
                UpdatePhase::CheckingRateLimit { attempt, replicas, dispatch },
                UpdateEvent::RateLimitChecked(checked),
            ) => {
                match checked {
                    Ok(()) => {
                        &&& step.goes_to(
                            UpdatePhase::Dispatching {
                                attempt,
                                replicas,
                                clock_tag: dispatch.clock_tag,
                            },
                        )
                        &&& step.action == UpdateAction::Dispatch(dispatch)
                    },
                    Err(error) => {
                        &&& step.is_quiet()
                        &&& step.fails_with(CollectionErrorView::Replica(error))
                    },
                }
            },
            (
                UpdatePhase::Dispatching { attempt, replicas, clock_tag },
                UpdateEvent::Replied(replies),
            ) => {
                self.concludes_replies(
                    update.request,
                    attempt,
                    replicas,
                    clock_tag,
                    replies@,
                    step,
                )
            },
            (
                UpdatePhase::Deactivating { attempt, accepted },
                UpdateEvent::DeactivationAwaited(awaited),
            ) => {
                &&& step.is_quiet()
                &&& match awaited {
                    Ok(true) => self.concludes_attempt(update.request, attempt, accepted, step),
                    Ok(false) => step.fails_with(
                        CollectionErrorView::ServiceError {
                            error: self.deactivation_timed_out_text(accepted.failure_error@),
                        },
                    ),
                    Err(error) => step.fails_with(CollectionErrorView::Replica(error)),
                }
            },
            _ => false,
        }
    }

    /// Whether `forwarded` is how an operation is sent to the leader: without a tag and as the
    /// client asked, or not at all if the leader holds no remote replica.
    pub open spec fn forwards(
        self,
        leader_peer: PeerId,
        request: UpdateRequest,
        forwarded: Result<ForwardedUpdate, CollectionError>,
    ) -> bool {
        match forwarded {
            Ok(forwarded) => {
                &&& self.is_remote_leader(leader_peer, forwarded.remote as int)
                &&& forwarded.clock_tag is None
                &&& forwarded.wait == request.wait
                &&& forwarded.timeout == request.timeout
                &&& forwarded.ordering == request.ordering
            },
            Err(error) => {
                &&& !self.remotes.contains(leader_peer)
                &&& error@ == (CollectionErrorView::ServiceError {
                    error: self.leader_removed_text(),
                })
            },
        }
    }

    /// Whether the remote replica at `remote` is the first one on the leader.
    pub open spec fn is_remote_leader(self, leader_peer: PeerId, remote: int) -> bool {
        &&& 0 <= remote < self.remotes.len()
        &&& self.remotes[remote] == leader_peer
        &&& forall|i: int| 0 <= i < remote ==> #[trigger] self.remotes[i] != leader_peer
    }
}

/// What an update carries from step to step.
struct Session {
    request: UpdateRequest,
    disposable_hw_measurement: bool,
}

impl Session {
    /// A step that neither advances a clock nor deactivates a replica.
    fn step(self, phase: UpdatePhase, action: UpdateAction) -> (step: UpdateStep)
        ensures
            step.update.request == self.request,
            step.update.disposable_hw_measurement == self.disposable_hw_measurement,
            step.goes_to(phase),
            step.action == action,
    {
        UpdateStep {
            update: Update {
                request: self.request,
                disposable_hw_measurement: self.disposable_hw_measurement,
                phase,
            },
            advance_clock_to: None,
            deactivations: Vec::new(),
            action,
        }
    }

    /// A step that ends the update.
    fn finish(self, result: Result<UpdateResult, CollectionError>) -> (step: UpdateStep)
        ensures
            step.update.request == self.request,
            step.update.disposable_hw_measurement == self.disposable_hw_measurement,
            step.goes_to(UpdatePhase::Finished),
            step.action == UpdateAction::Finish(result),
    {
        self.step(UpdatePhase::Finished, UpdateAction::Finish(result))
    }
}

/// How long the update waits for a clock.
fn clock_timeout(request: &UpdateRequest) -> (timeout: Duration)
    ensures
        timeout@ == request.clock_timeout(),
{
    match request.timeout {
        Some(timeout) => timeout,
        None => Duration::longest(),
    }
}

impl ShardReplicaSet {
    /// Starts an update: selects its leader, and either waits for a clock or sends the operation
    /// to the leader.
    pub fn update_with_consistency(&self, request: UpdateRequest) -> (step: UpdateStep)
        ensures
            self@.starts(request, step),
    {
        let leader = self.leader_peer_for_update(request.ordering);
        let leader_peer = match leader {
            Some(leader_peer) => leader_peer,
            None => {
                let error = CollectionError::service_error(
                    self.no_leader_message(request.ordering),
                );
                let session = Session { request, disposable_hw_measurement: false };
                let step = session.finish(Err(error));
                assert(self@.starts_under(request, leader, step));
                return step;
            },
        };

        // Don't measure hardware when resharding
        let disposable_hw_measurement = match self.peer_state(leader_peer) {
            Some(state) => state.is_resharding(),
            None => false,
        };
        let step = if leader_peer == self.this_peer_id() {
            // If we are the leader, run the update from this replica set
            let timeout = clock_timeout(&request);
            let session = Session { request, disposable_hw_measurement };
            session.step(UpdatePhase::AcquiringClock, UpdateAction::AcquireClock { timeout })
        } else {
            // Forward the update to the designated leader
            let session = Session { request, disposable_hw_measurement };
            session.step(
                UpdatePhase::Forwarding { leader_peer },
                UpdateAction::Forward { leader_peer },
            )
        };
        assert(self@.starts_under(request, leader, step));
        step
    }

    /// The operation as it is sent to the leader, or an error if the leader holds no replica. The
    /// update then goes on with [`UpdateEvent::LeaderRemoved`].
    ///
    /// The leader tags the operation with a clock of its own, so it is sent without a tag.
    pub fn forward_update(&self, leader_peer: PeerId, request: &UpdateRequest) -> (forwarded:
        Result<ForwardedUpdate, CollectionError>)
        ensures
            self@.forwards(leader_peer, *request, forwarded),
    {
        let mut remote: usize = 0;
        while remote < self.remotes.len()
            invariant
                remote <= self.remotes.len(),
                forall|i: int| 0 <= i < remote ==> #[trigger] self@.remotes[i] != leader_peer,
            decreases self.remotes.len() - remote,
        {
            if self.remotes[remote] == leader_peer {
                return Ok(
                    ForwardedUpdate {
                        remote,
                        clock_tag: None,
                        wait: request.wait,
                        timeout: request.timeout,
                        ordering: request.ordering,
                    },
                );
            }
            remote += 1;
        }
        Err(CollectionError::service_error(self.leader_removed_message()))
    }

    /// Deactivates a leader that fails for the time being, and ends the update.
    fn give_leader_up(&self, session: Session, leader_peer: PeerId, error: &String) -> (step:
        UpdateStep)
        ensures
            step.update.request == session.request,
            step.update.disposable_hw_measurement == session.disposable_hw_measurement,
            self@.gives_leader_up(leader_peer, session.request.ordering, error@, step),
    {
        let from_state = self.peer_state(leader_peer);
        let text = leader_failed_message(session.request.ordering, leader_peer, error);
        let mut step = session.finish(Err(CollectionError::service_error(text)));
        step.deactivations.push(Deactivation { peer_id: leader_peer, from_state });
        assert(step.deactivations@ =~= seq![Deactivation { peer_id: leader_peer, from_state }]);
        step
    }

    /// Ends an update whose leader holds no replica any more.
    fn conclude_without_leader(
        &self,
        session: Session,
        leader_peer: PeerId,
        text: &String,
        transient: bool,
    ) -> (step: UpdateStep)
        ensures
            step.update.request == session.request,
            step.update.disposable_hw_measurement == session.disposable_hw_measurement,
            self@.concludes_without_leader(
                leader_peer,
                session.request.ordering,
                text@,
                transient,
                step,
            ),
    {
        if transient {
            self.give_leader_up(session, leader_peer, text)
        } else {
            session.finish(Err(CollectionError::service_error(self.leader_removed_message())))
        }
    }

    /// Ends an update with the answer of its leader.
    fn conclude_forward(
        &self,
        session: Session,
        leader_peer: PeerId,
        reply: Result<UpdateResult, ReplicaError>,
    ) -> (step: UpdateStep)
        ensures
            step.update.request == session.request,
            step.update.disposable_hw_measurement == session.disposable_hw_measurement,
            self@.concludes_forward(leader_peer, session.request.ordering, reply, step),
    {
        match reply {
            Ok(result) => session.finish(Ok(result)),
            // Deactivate the peer if forwarding failed with a transient error
            Err(error) => if error.transient {
                self.give_leader_up(session, leader_peer, &error.text)
            } else {
                session.finish(Err(CollectionError::Replica(error)))
            },
        }
    }

    /// Chooses the replicas of an attempt.
    fn choose_targets(&self, session: Session, attempt: Attempt) -> (step: UpdateStep)
        ensures
            step.update.request == session.request,
            step.update.disposable_hw_measurement == session.disposable_hw_measurement,
            self@.chooses_targets(session.request.ordering, attempt, step),
    {
        match self.select_update_targets() {
            Err(error) => session.finish(Err(error)),
            Ok(targets) => if session.request.ordering.is_ordered() {
                session.step(
                    UpdatePhase::LockingOrder { attempt, targets },
                    UpdateAction::LockOrder,
                )
            } else {
                session.step(UpdatePhase::Ticking { attempt, targets }, UpdateAction::TickClock)
            },
        }
    }

    /// Sends the operation to the replicas, or asks the write rate limiter whether it may.
    fn dispatch(
        &self,
        session: Session,
        attempt: Attempt,
        targets: UpdateTargets,
        clock_tag: ClockTag,
    ) -> (step: UpdateStep)
        ensures
            step.update.request == session.request,
            step.update.disposable_hw_measurement == session.disposable_hw_measurement,
            self@.dispatches(session.request, attempt, targets, clock_tag, step),
    {
        let replicas = targets.replicas;
        let local = self.plan_local_dispatch(replicas.local, session.request.wait);
        let dispatch = Dispatch {
            clock_tag,
            local,
            remotes: targets.remotes,
            wait: session.request.wait,
            timeout: session.request.timeout,
            concurrency: self.update_concurrency,
            hook: targets.hook,
        };
        match local {
            Some(local) if local.check_rate_limit => session.step(
                UpdatePhase::CheckingRateLimit { attempt, replicas, dispatch },
                UpdateAction::CheckRateLimit,
            ),
            _ => session.step(
                UpdatePhase::Dispatching { attempt, replicas, clock_tag },
                UpdateAction::Dispatch(dispatch),
            ),
        }
    }

    /// Follows up an accepted attempt, once the replicas of the deactivations are disabled.
    fn follow_up(
        &self,
        session: Session,
        attempt: Attempt,
        accepted: Accepted,
        deactivations: &[Deactivation],
    ) -> (step: UpdateStep)
        ensures
            step.update.request == session.request,
            step.update.disposable_hw_measurement == session.disposable_hw_measurement,
            step.is_quiet(),
            self@.disabling(deactivations@).concludes_attempt(
                session.request,
                attempt,
                accepted,
                step,
            ),
    {
        let result = self.conclude_attempt(&accepted, deactivations);
        assert(self@.disabling(deactivations@).concludes_to(accepted, result));
        match result {
            Err(error) => session.finish(Err(error)),
            Ok(Some(merged)) => session.finish(Ok(merged)),
            Ok(None) => if attempt.number < UPDATE_MAX_CLOCK_REJECTED_RETRIES {
                let next = Attempt { number: attempt.number + 1, clock_id: attempt.clock_id };
                session.step(
                    UpdatePhase::ReadingReplicas { attempt: next },
                    UpdateAction::ReadReplicas,
                )
            } else {
                let text = attempts_exhausted_message(&session.request.operation);
                session.finish(Err(CollectionError::service_error(text)))
            },
        }
    }

    /// Follows up the answers of the replicas.
    fn conclude_replies(
        &self,
        session: Session,
        attempt: Attempt,
        replicas: ReplicaCount,
        clock_tag: ClockTag,
        replies: Vec<Reply>,
    ) -> (step: UpdateStep)
        ensures
            step.update.request == session.request,
            step.update.disposable_hw_measurement == session.disposable_hw_measurement,
            self@.concludes_replies(
                session.request,
                attempt,
                replicas,
                clock_tag,
                replies@,
                step,
            ),
    {
        let assessment = self.assess_replies(
            replies,
            replicas,
            clock_tag,
            session.request.wait,
            session.request.update_only_existing,
        );
        let ghost assessed = assessment;
        let mut step = match assessment.decision {
            Decision::Failed(error) => session.finish(Err(error)),
            Decision::AwaitDeactivation { peer_ids, accepted } => session.step(
                UpdatePhase::Deactivating { attempt, accepted },
                UpdateAction::AwaitDeactivation { peer_ids, timeout: deactivation_timeout() },
            ),
            Decision::Conclude(accepted) => self.follow_up(
                session,
                attempt,
                accepted,
                &assessment.deactivations,
            ),
        };
        let ghost quiet = step;
        step.advance_clock_to = assessment.advance_clock_to;
        step.deactivations = assessment.deactivations;
        proof {
            assert(self@.assesses_to(
                replies@,
                replicas,
                clock_tag,
                session.request.wait,
                session.request.update_only_existing,
                assessed,
            ));
            if let Decision::Conclude(accepted) = assessed.decision {
                let disabled = self@.disabling(assessed.deactivations@);
                let result = choose|result: Result<Option<UpdateResult>, CollectionError>|
                    {
                        &&& #[trigger] disabled.concludes_to(accepted, result)
                        &&& follows_up(session.request, attempt, result, quiet)
                    };
                assert(disabled.concludes_to(accepted, result));
                assert(disabled.concludes_attempt(session.request, attempt, accepted, step));
            }
        }
        step
    }

    /// Takes an update one step further.
    ///
    /// An update that this peer leads takes a clock, then tries to apply the operation to all
    /// replicas, again and again as long as some of them reject its tick and attempts are left.
    pub fn update(&self, update: Update, event: UpdateEvent) -> (step: UpdateStep)
        requires
            update.spec_awaits(event),
        ensures
            self@.steps_to(update, event, step),
    {
        let session = Session {
            request: update.request,
            disposable_hw_measurement: update.disposable_hw_measurement,
        };
        match (update.phase, event) {
            (UpdatePhase::Forwarding { leader_peer }, UpdateEvent::Forwarded(reply)) => {
                self.conclude_forward(session, leader_peer, reply)
            },
            (
                UpdatePhase::Forwarding { leader_peer },
                UpdateEvent::LeaderRemoved { text, transient },
            ) => { self.conclude_without_leader(session, leader_peer, &text, transient) },
            (UpdatePhase::AcquiringClock, UpdateEvent::ClockAcquired { clock_id }) => {
                session.step(
                    UpdatePhase::ReadingReplicas { attempt: Attempt { number: 1, clock_id } },
                    UpdateAction::ReadReplicas,
                )
            },
            (UpdatePhase::AcquiringClock, UpdateEvent::ClockTimedOut) => {
                let timeout = clock_timeout(&session.request);
                let text = clock_timed_out_message(session.request.timeout);
                session.finish(Err(CollectionError::timeout(timeout, text)))
            },
            (UpdatePhase::ReadingReplicas { attempt }, UpdateEvent::ReplicasRead) => {
                self.choose_targets(session, attempt)
            },
            (UpdatePhase::LockingOrder { attempt, targets }, UpdateEvent::OrderLocked) => {
                session.step(UpdatePhase::Ticking { attempt, targets }, UpdateAction::TickClock)
            },
            (
                UpdatePhase::Ticking { attempt, targets },
                UpdateEvent::Ticked { clock_tick, token },
            ) => {
                let clock_tag = ClockTag::new_with_token(
                    self.this_peer_id(),
                    attempt.clock_id,
                    clock_tick,
                    token,
                );
                // Keep the write ordering lock as short as possible: it only orders the ticks
                if session.request.ordering.is_ordered() {
                    session.step(
                        UpdatePhase::UnlockingOrder { attempt, targets, clock_tag },
                        UpdateAction::UnlockOrder,
                    )
                } else {
                    self.dispatch(session, attempt, targets, clock_tag)
                }
            },
            (
                UpdatePhase::UnlockingOrder { attempt, targets, clock_tag },
                UpdateEvent::OrderUnlocked,
            ) => { self.dispatch(session, attempt, targets, clock_tag) },
            (
                UpdatePhase::CheckingRateLimit { attempt, replicas, dispatch },
                UpdateEvent::RateLimitChecked(checked),
            ) => {
                match checked {
                    Ok(()) => {
                        let clock_tag = dispatch.clock_tag;
                        session.step(
                            UpdatePhase::Dispatching { attempt, replicas, clock_tag },
                            UpdateAction::Dispatch(dispatch),
                        )
                    },
                    Err(error) => session.finish(Err(CollectionError::Replica(error))),
                }
            },
            (
                UpdatePhase::Dispatching { attempt, replicas, clock_tag },
                UpdateEvent::Replied(replies),
            ) => { self.conclude_replies(session, attempt, replicas, clock_tag, replies) },
            (
                UpdatePhase::Deactivating { attempt, accepted },
                UpdateEvent::DeactivationAwaited(awaited),
            ) => {
                match awaited {
                    Ok(true) => {
                        let deactivations: Vec<Deactivation> = Vec::new();
                        proof {
                            lemma_disabling_nothing(self@, deactivations@);
                        }
                        self.follow_up(session, attempt, accepted, &deactivations)
                    },
                    Ok(false) => {
                        let text = self.deactivation_timed_out_message(&accepted.failure_error);
                        session.finish(Err(CollectionError::service_error(text)))
                    },
                    Err(error) => session.finish(Err(CollectionError::Replica(error))),
                }
            },
            (phase, _) => {
                assert(false);
                session.step(phase, UpdateAction::ReadReplicas)
            },
        }
    }
}

} // verus!
