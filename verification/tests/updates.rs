use std::collections::{HashMap, HashSet};

use shard_replica_set::attempt::LocalDispatch;
use shard_replica_set::duration::Duration;
use shard_replica_set::failures::Deactivation;
use shard_replica_set::merge::Reply;
use shard_replica_set::replica_set::ShardReplicaSet;
use shard_replica_set::rules::{StateRules, StateSet};
use shard_replica_set::types::{
    ClockTag, CollectionError, PeerId, ReplicaError, ReplicaState, UpdateResult, UpdateStatus,
    WriteOrdering,
};
use shard_replica_set::update::{
    Dispatch, ForwardedUpdate, Update, UpdateAction, UpdateEvent, UpdatePhase, UpdateRequest,
    UpdateStep,
};

fn replica_set(
    this_peer_id: PeerId,
    has_local: bool,
    remotes: &[PeerId],
    peers: &[(PeerId, ReplicaState)],
) -> ShardReplicaSet {
    ShardReplicaSet {
        collection_id: "test_collection".to_string(),
        shard_id: 1,
        this_peer_id,
        has_local,
        remotes: remotes.to_vec(),
        peers: peers.iter().copied().collect::<HashMap<_, _>>(),
        locally_disabled: HashSet::new(),
        state_rules: StateRules {
            updatable: StateSet {
                active: true,
                partial: true,
                listener: true,
                resharding: true,
                ..StateSet::none()
            },
            source_of_truth: StateSet { active: true, resharding: true, ..StateSet::none() },
            partial_or_recovery: StateSet { partial: true, recovery: true, ..StateSet::none() },
        },
        write_consistency_factor: 1,
        update_concurrency: None,
        ordered_write_remote_update_hook: None,
    }
}

fn request(ordering: WriteOrdering) -> UpdateRequest {
    UpdateRequest {
        operation: "DeletePoint(123)".to_string(),
        wait: true,
        timeout: None,
        ordering,
        update_only_existing: false,
    }
}

fn step(rs: &ShardReplicaSet, update: Update, event: UpdateEvent) -> UpdateStep {
    assert!(update.awaits(&event), "{update:?} does not wait for {event:?}");
    rs.update(update, event)
}

fn service_error(error: &str) -> UpdateAction {
    UpdateAction::Finish(Err(CollectionError::ServiceError { error: error.to_string() }))
}

fn replica_error(text: &str, transient: bool) -> ReplicaError {
    ReplicaError {
        text: text.to_string(),
        transient,
        missing_point: false,
        pre_condition_failed: false,
    }
}

fn completed(tag: ClockTag) -> UpdateResult {
    UpdateResult {
        operation_id: Some(tag.clock_tick),
        status: UpdateStatus::Completed,
        clock_tag: Some(tag),
    }
}

/// Drives an update that this peer leads until its operation is sent to the replicas. The lock
/// is the write ordering lock.
fn drive_to_dispatch(
    rs: &ShardReplicaSet,
    mut current: UpdateStep,
    lock: &mut bool,
    tick: &mut u64,
) -> (Update, Dispatch) {
    loop {
        let event = match current.action {
            UpdateAction::AcquireClock { .. } => UpdateEvent::ClockAcquired { clock_id: 7 },
            UpdateAction::ReadReplicas => UpdateEvent::ReplicasRead,
            UpdateAction::LockOrder => {
                assert!(!*lock);
                *lock = true;
                UpdateEvent::OrderLocked
            }
            UpdateAction::TickClock => {
                *tick += 1;
                UpdateEvent::Ticked { clock_tick: *tick, token: 0 }
            }
            UpdateAction::UnlockOrder => {
                assert!(*lock);
                *lock = false;
                UpdateEvent::OrderUnlocked
            }
            UpdateAction::CheckRateLimit => UpdateEvent::RateLimitChecked(Ok(())),
            UpdateAction::Dispatch(dispatch) => return (current.update, dispatch),
            other => panic!("unexpected action: {other:?}"),
        };
        current = step(rs, current.update, event);
    }
}

fn ordered_write_replica_set() -> ShardReplicaSet {
    replica_set(2, true, &[1], &[(2, ReplicaState::Recovery), (1, ReplicaState::Active)])
}

#[test]
fn test_strong_writes_do_not_serialize_across_remote_await_barrier() {
    let mut rs = ordered_write_replica_set();
    rs.set_ordered_write_remote_update_hook(Some(1));

    const N: usize = 8;
    let mut lock = false;
    let mut tick = 0;
    let mut waiting = vec![];
    for _ in 0..N {
        let start = rs.update_with_consistency(request(WriteOrdering::Strong));
        let (update, dispatch) = drive_to_dispatch(&rs, start, &mut lock, &mut tick);
        assert_eq!(dispatch.hook, Some(1));
        assert_eq!(dispatch.remotes, vec![1]);
        assert_eq!(dispatch.local, None);
        waiting.push((update, dispatch.clock_tag));
    }

    // all N writes should have reached the remote await point
    assert_eq!(waiting.len(), N);
    for (update, tag) in waiting {
        let replies: Vec<Reply> = vec![Ok((1, completed(tag)))];
        let last = step(&rs, update, UpdateEvent::Replied(replies));
        assert_eq!(last.action, UpdateAction::Finish(Ok(completed(tag))));
    }
    rs.set_ordered_write_remote_update_hook(None);
}

#[test]
fn test_write_ordering_lock_not_held_while_remote_update_is_blocked() {
    let mut rs = ordered_write_replica_set();
    rs.set_ordered_write_remote_update_hook(Some(1));
    let mut lock = false;
    let mut tick = 0;
    let start = rs.update_with_consistency(request(WriteOrdering::Strong));
    let (update, dispatch) = drive_to_dispatch(&rs, start, &mut lock, &mut tick);
    assert_eq!(dispatch.hook, Some(1));
    // the lock should be free while the remote update is awaiting
    assert!(!lock);
    let replies: Vec<Reply> = vec![Ok((1, completed(dispatch.clock_tag)))];
    let last = step(&rs, update, UpdateEvent::Replied(replies));
    assert!(matches!(last.action, UpdateAction::Finish(Ok(_))));
}

#[test]
fn lock_is_only_held_for_the_tick() {
    for ordering in [WriteOrdering::Medium, WriteOrdering::Strong] {
        let rs = replica_set(1, true, &[], &[(1, ReplicaState::Active)]);
        let s = rs.update_with_consistency(request(ordering));
        let s = step(&rs, s.update, UpdateEvent::ClockAcquired { clock_id: 7 });
        let s = step(&rs, s.update, UpdateEvent::ReplicasRead);
        assert_eq!(s.action, UpdateAction::LockOrder);
        let s = step(&rs, s.update, UpdateEvent::OrderLocked);
        assert_eq!(s.action, UpdateAction::TickClock);
        let s = step(&rs, s.update, UpdateEvent::Ticked { clock_tick: 5, token: 6 });
        assert_eq!(s.action, UpdateAction::UnlockOrder);
        let s = step(&rs, s.update, UpdateEvent::OrderUnlocked);
        assert_eq!(s.action, UpdateAction::CheckRateLimit);
    }
}

#[test]
fn weak_update_runs_without_the_lock() {
    let mut rs = replica_set(
        1,
        true,
        &[2, 3, 4],
        &[
            (1, ReplicaState::Listener),
            (2, ReplicaState::Active),
            (3, ReplicaState::Dead),
            (4, ReplicaState::Active),
        ],
    );
    rs.update_concurrency = Some(2);
    let timeout = Duration::new(3, 0);
    let s = rs.update_with_consistency(UpdateRequest { timeout, ..request(WriteOrdering::Weak) });
    assert_eq!(s.action, UpdateAction::AcquireClock { timeout: Duration::from_secs(3) });
    assert!(!s.update.disposable_hw_measurement);
    let s = step(&rs, s.update, UpdateEvent::ClockAcquired { clock_id: 7 });
    assert_eq!(s.action, UpdateAction::ReadReplicas);
    let s = step(&rs, s.update, UpdateEvent::ReplicasRead);
    assert_eq!(s.action, UpdateAction::TickClock);
    let s = step(&rs, s.update, UpdateEvent::Ticked { clock_tick: 5, token: 6 });
    assert_eq!(
        s.action,
        UpdateAction::Dispatch(Dispatch {
            clock_tag: ClockTag::new_with_token(1, 7, 5, 6),
            local: Some(LocalDispatch { wait: false, check_rate_limit: false }),
            remotes: vec![2, 4],
            wait: true,
            timeout,
            concurrency: Some(2),
            hook: None,
        })
    );
}

#[test]
fn update_without_timeout_waits_for_a_clock_without_end() {
    let rs = replica_set(1, true, &[], &[(1, ReplicaState::Resharding)]);
    let s = rs.update_with_consistency(request(WriteOrdering::Weak));
    assert_eq!(s.action, UpdateAction::AcquireClock { timeout: Duration::longest() });
    // Hardware is not measured when resharding
    assert!(s.update.disposable_hw_measurement);
    let s = step(&rs, s.update, UpdateEvent::ClockTimedOut);
    assert_eq!(
        s.action,
        UpdateAction::Finish(Err(CollectionError::Timeout {
            timeout: Duration::longest(),
            description: "Failed to acquire clock for update operation within None".to_string(),
        }))
    );
}

#[test]
fn clock_that_is_not_free_in_time_is_a_timeout() {
    let rs = replica_set(1, true, &[], &[(1, ReplicaState::Active)]);
    let timeout = Duration::new(1, 500_000_000);
    let s = rs.update_with_consistency(UpdateRequest { timeout, ..request(WriteOrdering::Weak) });
    let s = step(&rs, s.update, UpdateEvent::ClockTimedOut);
    assert_eq!(
        s.action,
        UpdateAction::Finish(Err(CollectionError::Timeout {
            timeout: timeout.unwrap(),
            description: "Failed to acquire clock for update operation within Some(1.5s)"
                .to_string(),
        }))
    );
    assert_eq!(s.update.phase, UpdatePhase::Finished);
    assert!(!s.update.awaits(&UpdateEvent::ClockTimedOut));
}

#[test]
fn update_without_leader_fails() {
    let rs = replica_set(1, true, &[], &[(1, ReplicaState::Dead)]);
    let s = rs.update_with_consistency(request(WriteOrdering::Medium));
    assert_eq!(
        s.action,
        service_error(
            "Cannot update shard test_collection:1 with Medium ordering \
             because no leader could be selected"
        )
    );
}

#[test]
fn update_is_forwarded_without_a_tag() {
    let rs = replica_set(
        1,
        true,
        &[2, 18_446_744_073_709_551_615],
        &[(1, ReplicaState::Active), (18_446_744_073_709_551_615, ReplicaState::Resharding)],
    );
    let leader_peer = u64::MAX;
    let s = rs.update_with_consistency(request(WriteOrdering::Strong));
    assert_eq!(s.action, UpdateAction::Forward { leader_peer });
    assert!(s.update.disposable_hw_measurement);
    assert_eq!(
        rs.forward_update(leader_peer, &s.update.request),
        Ok(ForwardedUpdate {
            remote: 1,
            clock_tag: None,
            wait: true,
            timeout: None,
            ordering: WriteOrdering::Strong,
        })
    );
    let answer = UpdateResult {
        operation_id: Some(4),
        status: UpdateStatus::Acknowledged,
        clock_tag: None,
    };
    let s = step(&rs, s.update, UpdateEvent::Forwarded(Ok(answer)));
    assert_eq!(s.action, UpdateAction::Finish(Ok(answer)));
    assert_eq!(s.deactivations, vec![]);
}

#[test]
fn leader_that_was_removed_cannot_be_asked() {
    let rs = replica_set(1, true, &[2], &[(9, ReplicaState::Active)]);
    assert_eq!(
        rs.forward_update(9, &request(WriteOrdering::Strong)),
        Err(CollectionError::ServiceError {
            error: "Cannot forward update to shard 1 because was removed from the replica set"
                .to_string(),
        })
    );
}

#[test]
fn update_without_its_leader_fails() {
    let rs = replica_set(1, true, &[2], &[(1, ReplicaState::Active), (9, ReplicaState::Active)]);
    let text = "Service internal error: gone";
    let removed = |transient: bool| UpdateEvent::LeaderRemoved {
        text: text.to_string(),
        transient,
    };

    let s = rs.update_with_consistency(request(WriteOrdering::Strong));
    assert_eq!(s.action, UpdateAction::Forward { leader_peer: 9 });
    let s = step(&rs, s.update, removed(false));
    assert_eq!(
        s.action,
        service_error("Cannot forward update to shard 1 because was removed from the replica set")
    );
    assert_eq!(s.deactivations, vec![]);

    let s = rs.update_with_consistency(request(WriteOrdering::Strong));
    let s = step(&rs, s.update, removed(true));
    assert_eq!(
        s.action,
        service_error(
            "Failed to apply update with Strong ordering via leader peer 9: \
             Service internal error: gone"
        )
    );
    assert_eq!(
        s.deactivations,
        vec![Deactivation { peer_id: 9, from_state: Some(ReplicaState::Active) }]
    );
}

#[test]
fn leader_that_fails_for_now_is_deactivated() {
    let rs = replica_set(1, true, &[20], &[(1, ReplicaState::Active), (20, ReplicaState::Active)]);
    let s = rs.update_with_consistency(request(WriteOrdering::Strong));
    let s = step(&rs, s.update, UpdateEvent::Forwarded(Err(replica_error("away", true))));
    assert_eq!(
        s.action,
        service_error("Failed to apply update with Strong ordering via leader peer 20: away")
    );
    assert_eq!(
        s.deactivations,
        vec![Deactivation { peer_id: 20, from_state: Some(ReplicaState::Active) }]
    );
}

#[test]
fn lasting_failure_of_the_leader_is_handed_on() {
    let rs = replica_set(1, true, &[20], &[(1, ReplicaState::Active), (20, ReplicaState::Active)]);
    let s = rs.update_with_consistency(request(WriteOrdering::Medium));
    let failure = replica_error("bad request", false);
    let s = step(&rs, s.update, UpdateEvent::Forwarded(Err(failure.clone())));
    assert_eq!(s.action, UpdateAction::Finish(Err(CollectionError::Replica(failure))));
    assert_eq!(s.deactivations, vec![]);
}

#[test]
fn update_without_updatable_replica_fails() {
    let rs = replica_set(12, true, &[2], &[(12, ReplicaState::Dead), (2, ReplicaState::Recovery)]);
    let s = rs.update_with_consistency(request(WriteOrdering::Weak));
    let s = step(&rs, s.update, UpdateEvent::ClockAcquired { clock_id: 7 });
    let s = step(&rs, s.update, UpdateEvent::ReplicasRead);
    assert_eq!(
        s.action,
        service_error("The replica set for shard 1 on peer 12 has no active replica")
    );
}

#[test]
fn rate_limited_update_is_not_sent() {
    let rs = replica_set(1, true, &[], &[(1, ReplicaState::Active)]);
    let s = rs.update_with_consistency(request(WriteOrdering::Weak));
    let s = step(&rs, s.update, UpdateEvent::ClockAcquired { clock_id: 7 });
    let s = step(&rs, s.update, UpdateEvent::ReplicasRead);
    let s = step(&rs, s.update, UpdateEvent::Ticked { clock_tick: 5, token: 6 });
    assert_eq!(s.action, UpdateAction::CheckRateLimit);
    let refusal = replica_error("rate limited", false);
    let s = step(&rs, s.update, UpdateEvent::RateLimitChecked(Err(refusal.clone())));
    assert_eq!(s.action, UpdateAction::Finish(Err(CollectionError::Replica(refusal))));
}

#[test]
fn rejected_update_is_tried_three_times() {
    let rs = replica_set(1, true, &[], &[(1, ReplicaState::Active)]);
    let mut lock = false;
    let mut tick = 0;
    let mut s = rs.update_with_consistency(request(WriteOrdering::Strong));
    for attempt in 1..=3u64 {
        let (update, dispatch) = drive_to_dispatch(&rs, s, &mut lock, &mut tick);
        assert_eq!(dispatch.clock_tag, ClockTag::new_with_token(1, 7, attempt, 0));
        let rejection = UpdateResult {
            operation_id: None,
            status: UpdateStatus::ClockRejected,
            clock_tag: Some(ClockTag { clock_tick: 100 * attempt, ..dispatch.clock_tag }),
        };
        let replies: Vec<Reply> = vec![Ok((1, rejection))];
        s = step(&rs, update, UpdateEvent::Replied(replies));
        assert_eq!(s.advance_clock_to, Some(100 * attempt));
    }
    assert_eq!(
        s.action,
        service_error(
            "Failed to apply operation DeletePoint(123) after 3 attempts, \
             all attempts were rejected"
        )
    );
}

#[test]
fn rejected_update_may_succeed_later() {
    let rs = replica_set(1, true, &[], &[(1, ReplicaState::Active)]);
    let mut lock = false;
    let mut tick = 0;
    let s = rs.update_with_consistency(request(WriteOrdering::Weak));
    let (update, dispatch) = drive_to_dispatch(&rs, s, &mut lock, &mut tick);
    let rejection = UpdateResult {
        operation_id: None,
        status: UpdateStatus::ClockRejected,
        clock_tag: Some(dispatch.clock_tag),
    };
    let replies: Vec<Reply> = vec![Ok((1, rejection))];
    let s = step(&rs, update, UpdateEvent::Replied(replies));
    assert_eq!(s.action, UpdateAction::ReadReplicas);
    let (update, dispatch) = drive_to_dispatch(&rs, s, &mut lock, &mut tick);
    let replies: Vec<Reply> = vec![Ok((1, completed(dispatch.clock_tag)))];
    let s = step(&rs, update, UpdateEvent::Replied(replies));
    assert_eq!(s.action, UpdateAction::Finish(Ok(completed(dispatch.clock_tag))));
}

fn until_deactivation(rs: &ShardReplicaSet) -> UpdateStep {
    let s = rs.update_with_consistency(request(WriteOrdering::Weak));
    let (update, dispatch) = drive_to_dispatch(rs, s, &mut false, &mut 0);
    let replies: Vec<Reply> =
        vec![Ok((1, completed(dispatch.clock_tag))), Err((2, replica_error("away", true)))];
    step(rs, update, UpdateEvent::Replied(replies))
}

fn two_replicas() -> ShardReplicaSet {
    replica_set(1, true, &[2], &[(1, ReplicaState::Active), (2, ReplicaState::Active)])
}

#[test]
fn failed_replica_is_deactivated_before_the_client_is_answered() {
    let mut rs = two_replicas();
    let s = until_deactivation(&rs);
    assert_eq!(
        s.deactivations,
        vec![Deactivation { peer_id: 2, from_state: Some(ReplicaState::Active) }]
    );
    assert_eq!(
        s.action,
        UpdateAction::AwaitDeactivation {
            peer_ids: vec![2],
            timeout: Duration::from_secs(30),
        }
    );
    rs.peers.insert(2, ReplicaState::Dead);
    assert!(rs.replicas_deactivated(&[2]));
    let s = step(&rs, s.update, UpdateEvent::DeactivationAwaited(Ok(true)));
    assert!(matches!(s.action, UpdateAction::Finish(Ok(_))));
    assert_eq!(s.deactivations, vec![]);
    assert_eq!(s.advance_clock_to, None);
}

#[test]
fn deactivation_that_takes_too_long_is_an_error() {
    let rs = two_replicas();
    let s = until_deactivation(&rs);
    let s = step(&rs, s.update, UpdateEvent::DeactivationAwaited(Ok(false)));
    assert_eq!(
        s.action,
        service_error(
            "Some replica of shard 1 failed to apply operation and deactivation \
             timed out after 30s. Consistency of this update is not guaranteed. Please retry. \
             Failed peer: 2, error: away"
        )
    );
}

#[test]
fn failed_wait_for_deactivation_is_handed_on() {
    let rs = two_replicas();
    let s = until_deactivation(&rs);
    let failure = replica_error("task was cancelled", false);
    let s = step(&rs, s.update, UpdateEvent::DeactivationAwaited(Err(failure.clone())));
    assert_eq!(s.action, UpdateAction::Finish(Err(CollectionError::Replica(failure))));
}

#[test]
fn source_of_truth_may_be_lost_during_deactivation() {
    let mut rs = two_replicas();
    let s = until_deactivation(&rs);
    rs.peers.insert(1, ReplicaState::Partial);
    let s = step(&rs, s.update, UpdateEvent::DeactivationAwaited(Ok(true)));
    assert_eq!(
        s.action,
        service_error(
            "Failed to apply operation to at least one `Active` replica. \
             Consistency of this update is not guaranteed. Please retry. \
             Failed peer: 2, error: away"
        )
    );
}

fn rejected(tag: ClockTag) -> UpdateResult {
    UpdateResult {
        operation_id: None,
        status: UpdateStatus::ClockRejected,
        clock_tag: Some(ClockTag { clock_tick: tag.clock_tick + 8, ..tag }),
    }
}

#[test]
fn rejected_update_is_tried_again_after_deactivation() {
    let rs = two_replicas();
    let s = rs.update_with_consistency(request(WriteOrdering::Weak));
    let (update, dispatch) = drive_to_dispatch(&rs, s, &mut false, &mut 0);
    let replies: Vec<Reply> = vec![
        Err((2, replica_error("away", true))),
        Ok((1, rejected(dispatch.clock_tag))),
    ];
    let s = step(&rs, update, UpdateEvent::Replied(replies));
    assert_eq!(s.advance_clock_to, Some(9));
    assert!(matches!(s.action, UpdateAction::AwaitDeactivation { .. }));
    let s = step(&rs, s.update, UpdateEvent::DeactivationAwaited(Ok(true)));
    assert_eq!(s.action, UpdateAction::ReadReplicas);
}

#[test]
fn rejected_update_is_tried_again_at_once_for_a_client_that_does_not_wait() {
    let rs = two_replicas();
    let request = UpdateRequest { wait: false, ..request(WriteOrdering::Weak) };
    let s = rs.update_with_consistency(request);
    let (update, dispatch) = drive_to_dispatch(&rs, s, &mut false, &mut 0);
    let replies: Vec<Reply> = vec![
        Err((2, replica_error("away", true))),
        Ok((1, rejected(dispatch.clock_tag))),
    ];
    let s = step(&rs, update, UpdateEvent::Replied(replies));
    assert_eq!(s.deactivations.len(), 1);
    assert_eq!(s.action, UpdateAction::ReadReplicas);
}

#[test]
fn replica_that_failed_and_took_the_update_does_not_back_it() {
    let rs = two_replicas();
    let request = UpdateRequest { wait: false, ..request(WriteOrdering::Weak) };
    let s = rs.update_with_consistency(request);
    let (update, dispatch) = drive_to_dispatch(&rs, s, &mut false, &mut 0);
    let replies: Vec<Reply> =
        vec![Ok((2, completed(dispatch.clock_tag))), Err((2, replica_error("away", true)))];
    let s = step(&rs, update, UpdateEvent::Replied(replies));
    assert_eq!(
        s.deactivations,
        vec![Deactivation { peer_id: 2, from_state: Some(ReplicaState::Active) }]
    );
    assert_eq!(
        s.action,
        service_error(
            "Failed to apply operation to at least one `Active` replica. \
             Consistency of this update is not guaranteed. Please retry. \
             Failed peer: 2, error: away"
        )
    );
}

#[test]
fn too_few_successes_fail_the_update() {
    let mut rs = two_replicas();
    rs.write_consistency_factor = 2;
    let s = rs.update_with_consistency(request(WriteOrdering::Weak));
    let (update, dispatch) = drive_to_dispatch(&rs, s, &mut false, &mut 0);
    let failure = replica_error("away", true);
    let replies: Vec<Reply> =
        vec![Ok((1, completed(dispatch.clock_tag))), Err((2, failure.clone()))];
    let s = step(&rs, update, UpdateEvent::Replied(replies));
    assert_eq!(s.action, UpdateAction::Finish(Err(CollectionError::Replica(failure))));
    assert_eq!(s.deactivations, vec![]);
}

#[test]
fn events_are_only_awaited_in_their_phase() {
    let rs = two_replicas();
    let s = rs.update_with_consistency(request(WriteOrdering::Weak));
    assert!(s.update.awaits(&UpdateEvent::ClockTimedOut));
    assert!(s.update.awaits(&UpdateEvent::ClockAcquired { clock_id: 1 }));
    assert!(!s.update.awaits(&UpdateEvent::ReplicasRead));
    assert!(!s.update.awaits(&UpdateEvent::OrderLocked));
    assert!(!s.update.awaits(&UpdateEvent::Replied(vec![])));
}
