use std::collections::{HashMap, HashSet};

use shard_replica_set::attempt::{Accepted, LocalDispatch, ReplicaCount, UpdateTargets, Decision};
use shard_replica_set::duration::Duration;
use shard_replica_set::failures::Deactivation;
use shard_replica_set::local::{ClockStep, LocalUpdate};
use shard_replica_set::merge::{has_clock_rejected, has_completed, newest_echoed_tick, Reply};
use shard_replica_set::replica_set::ShardReplicaSet;
use shard_replica_set::rules::{StateRules, StateSet};
use shard_replica_set::types::{
    ClockTag, CollectionError, PeerId, ReplicaError, ReplicaState, UpdateResult, UpdateStatus,
    WriteOrdering,
};

const ALL_STATES: [ReplicaState; 11] = [
    ReplicaState::Active,
    ReplicaState::Dead,
    ReplicaState::Partial,
    ReplicaState::Initializing,
    ReplicaState::Listener,
    ReplicaState::PartialSnapshot,
    ReplicaState::Recovery,
    ReplicaState::Resharding,
    ReplicaState::ReshardingScaleDown,
    ReplicaState::ActiveRead,
    ReplicaState::ManualRecovery,
];

fn rules() -> StateRules {
    StateRules {
        updatable: StateSet {
            active: true,
            partial: true,
            initializing: true,
            listener: true,
            resharding: true,
            resharding_scale_down: true,
            active_read: true,
            ..StateSet::none()
        },
        source_of_truth: StateSet {
            active: true,
            active_read: true,
            resharding: true,
            resharding_scale_down: true,
            ..StateSet::none()
        },
        partial_or_recovery: StateSet {
            partial: true,
            partial_snapshot: true,
            recovery: true,
            ..StateSet::none()
        },
    }
}

fn replica_set(
    this_peer_id: PeerId,
    has_local: bool,
    remotes: &[PeerId],
    peers: &[(PeerId, ReplicaState)],
) -> ShardReplicaSet {
    ShardReplicaSet {
        collection_id: "test_collection".to_string(),
        shard_id: 1,
        this_peer_id,
        has_local,
        remotes: remotes.to_vec(),
        peers: peers.iter().copied().collect::<HashMap<_, _>>(),
        locally_disabled: HashSet::new(),
        state_rules: rules(),
        write_consistency_factor: 2,
        update_concurrency: None,
        ordered_write_remote_update_hook: None,
    }
}

fn error(text: &str) -> ReplicaError {
    ReplicaError {
        text: text.to_string(),
        transient: false,
        missing_point: false,
        pre_condition_failed: false,
    }
}

fn transient(text: &str) -> ReplicaError {
    ReplicaError { transient: true, ..error(text) }
}

fn result(operation_id: u64, status: UpdateStatus) -> UpdateResult {
    UpdateResult { operation_id: Some(operation_id), status, clock_tag: None }
}

#[test]
fn test_merge_successful_update_results_wait_timeout_dominates() {
    let this_peer_id: PeerId = 1;

    let local_tag = ClockTag::new_with_token(this_peer_id, 7, 10, 0);
    let remote_tag = ClockTag::new_with_token(this_peer_id, 7, 12, 0);

    let successes = vec![
        (
            this_peer_id,
            UpdateResult {
                operation_id: Some(10),
                status: UpdateStatus::Completed,
                clock_tag: Some(local_tag),
            },
        ),
        (
            2,
            UpdateResult {
                operation_id: Some(20),
                status: UpdateStatus::WaitTimeout,
                clock_tag: Some(remote_tag),
            },
        ),
    ];

    let merged = ShardReplicaSet::merge_successful_update_results(&successes);

    assert_eq!(merged.status, UpdateStatus::WaitTimeout);
    assert_eq!(merged.operation_id, Some(20));
    assert_eq!(merged.clock_tag.unwrap().clock_tick, 12);
}

#[test]
fn test_merge_successful_update_results_prefers_highest_peer_id() {
    let this_peer_id: PeerId = 1;

    let local_tag = ClockTag::new_with_token(this_peer_id, 7, 10, 0);
    let remote_tag = ClockTag::new_with_token(this_peer_id, 7, 11, 0);

    let successes = vec![
        (
            this_peer_id,
            UpdateResult {
                operation_id: Some(10),
                status: UpdateStatus::Acknowledged,
                clock_tag: Some(local_tag),
            },
        ),
        (
            2,
            UpdateResult {
                operation_id: Some(20),
                status: UpdateStatus::Completed,
                clock_tag: Some(remote_tag),
            },
        ),
    ];

    let merged = ShardReplicaSet::merge_successful_update_results(&successes);

    assert_eq!(merged.status, UpdateStatus::Completed);
    assert_eq!(merged.operation_id, Some(20));
    assert_eq!(merged.clock_tag.unwrap().clock_tick, 11);
}

#[test]
fn test_highest_replica_peer_id() {
    let mut rs = replica_set(
        1,
        false,
        &[2, 3, 4, 5],
        &[
            (1, ReplicaState::Dead),
            (2, ReplicaState::Dead),
            (3, ReplicaState::Dead),
            (4, ReplicaState::Dead),
            (5, ReplicaState::Dead),
        ],
    );

    assert_eq!(rs.highest_replica_peer_id(), Some(5));
    // at build time the replicas are all dead, they need to be activated
    assert_eq!(rs.highest_alive_replica_peer_id(), None);

    rs.peers.insert(1, ReplicaState::Active);
    rs.peers.insert(3, ReplicaState::Active);
    rs.peers.insert(4, ReplicaState::Active);
    rs.peers.insert(5, ReplicaState::Partial);

    assert_eq!(rs.highest_replica_peer_id(), Some(5));
    assert_eq!(rs.highest_alive_replica_peer_id(), Some(4));
}

#[test]
fn leader_depends_on_the_ordering() {
    let mut rs = replica_set(
        1,
        true,
        &[3, 9],
        &[(1, ReplicaState::Active), (3, ReplicaState::Active), (9, ReplicaState::Dead)],
    );
    assert_eq!(rs.leader_peer_for_update(WriteOrdering::Weak), Some(1));
    assert_eq!(rs.leader_peer_for_update(WriteOrdering::Medium), Some(3));
    assert_eq!(rs.leader_peer_for_update(WriteOrdering::Strong), Some(9));

    rs.locally_disabled.insert(3);
    assert_eq!(rs.leader_peer_for_update(WriteOrdering::Medium), Some(1));
    rs.locally_disabled.insert(1);
    assert_eq!(rs.leader_peer_for_update(WriteOrdering::Medium), None);

    rs.peers.clear();
    assert_eq!(rs.leader_peer_for_update(WriteOrdering::Strong), None);
    assert_eq!(rs.leader_peer_for_update(WriteOrdering::Weak), Some(1));
}

#[test]
fn dead_disabled_or_unknown_peers_are_not_updatable() {
    let mut rs =
        replica_set(1, true, &[2, 3], &[(1, ReplicaState::Active), (2, ReplicaState::Dead)]);
    assert!(rs.is_peer_updatable(1));
    assert!(!rs.is_peer_updatable(2));
    assert!(!rs.is_peer_updatable(3));
    rs.locally_disabled.insert(1);
    assert!(!rs.is_peer_updatable(1));
}

#[test]
fn dead_peer_is_not_updatable_whatever_the_rules_say() {
    let mut rs = replica_set(1, true, &[], &[(1, ReplicaState::Dead)]);
    rs.state_rules.updatable.dead = true;
    assert!(!rs.is_peer_updatable(1));
    assert!(rs.select_update_targets().is_err());
}

#[test]
fn resharding_peers_are_recognised_in_both_directions() {
    for state in ALL_STATES {
        let mut rs = replica_set(1, true, &[], &[(1, state)]);
        let expected =
            matches!(state, ReplicaState::Resharding | ReplicaState::ReshardingScaleDown);
        assert_eq!(rs.peer_is_resharding(1), expected);
        rs.locally_disabled.insert(1);
        assert!(!rs.peer_is_resharding(1));
    }
}

#[test]
fn hook_is_set_and_taken_away() {
    let mut rs = replica_set(1, true, &[], &[]);
    rs.set_ordered_write_remote_update_hook(Some(4));
    assert_eq!(rs.ordered_write_remote_update_hook, Some(4));
    rs.set_ordered_write_remote_update_hook(None);
    assert_eq!(rs.ordered_write_remote_update_hook, None);
}

#[test]
fn local_update_depends_on_the_state() {
    let timeout = Duration::new(5, 0);
    let plain = LocalUpdate {
        check_rate_limit: false,
        disposable_hw_measurement: false,
        wait: true,
        timeout,
    };
    for state in ALL_STATES {
        let rs = replica_set(1, true, &[], &[(1, state)]);
        let unforced = rs.update_local(None, true, timeout, false, false);
        let forced = rs.update_local(None, true, timeout, false, true);
        match state {
            ReplicaState::Active => {
                let limited = Some(LocalUpdate { check_rate_limit: true, ..plain });
                assert_eq!(unforced, limited);
                assert_eq!(forced, Some(plain));
            }
            ReplicaState::Resharding | ReplicaState::ReshardingScaleDown => {
                let disposable = Some(LocalUpdate { disposable_hw_measurement: true, ..plain });
                assert_eq!(unforced, disposable);
                assert_eq!(forced, disposable);
                assert_eq!(rs.update_local(None, true, timeout, true, false), Some(plain));
            }
            ReplicaState::Listener => {
                let unwaited = LocalUpdate { wait: false, timeout: None, ..plain };
                assert_eq!(unforced, Some(unwaited));
                assert_eq!(forced, Some(plain));
            }
            ReplicaState::Dead
            | ReplicaState::ManualRecovery
            | ReplicaState::Recovery
            | ReplicaState::PartialSnapshot => {
                assert_eq!(unforced, None);
                assert_eq!(forced, Some(plain));
            }
            _ => {
                assert_eq!(unforced, Some(plain));
                assert_eq!(forced, Some(plain));
            }
        }
    }
}

#[test]
fn refused_local_update_is_not_applied() {
    let rs = replica_set(1, true, &[], &[(1, ReplicaState::Active)]);
    let plan = rs.update_local(None, true, None, false, false).unwrap();
    assert_eq!(
        ShardReplicaSet::admit_local_update(plan, Err(error("rate limited"))),
        Err(error("rate limited"))
    );
    assert_eq!(ShardReplicaSet::admit_local_update(plan, Ok(())), Ok(plan));
}

#[test]
fn only_an_unforced_update_of_an_active_replica_can_be_refused() {
    for state in ALL_STATES {
        let rs = replica_set(1, true, &[], &[(1, state)]);
        let forced = rs.update_local(None, true, None, false, true).unwrap();
        assert_eq!(
            ShardReplicaSet::admit_local_update(forced, Err(error("rate limited"))),
            Ok(forced)
        );
        if let Some(plan) = rs.update_local(None, true, None, false, false) {
            let admitted = ShardReplicaSet::admit_local_update(plan, Err(error("rate limited")));
            assert_eq!(admitted.is_err(), matches!(state, ReplicaState::Active));
        }
    }
}

#[test]
fn recovering_replica_takes_forced_tags_only() {
    let tag = ClockTag::new_with_token(1, 7, 10, 0);
    let forced_tag = ClockTag { force: true, ..tag };
    for state in [ReplicaState::Recovery, ReplicaState::PartialSnapshot] {
        let rs = replica_set(1, true, &[], &[(1, state)]);
        assert!(rs.update_local(Some(tag), true, None, false, false).is_none());
        assert!(rs.update_local(Some(forced_tag), true, None, false, false).is_some());
    }
    let rs = replica_set(1, true, &[], &[(1, ReplicaState::Dead)]);
    assert!(rs.update_local(Some(forced_tag), true, None, false, false).is_none());
}

#[test]
fn local_update_needs_a_known_local_replica() {
    let absent = replica_set(1, false, &[], &[(1, ReplicaState::Active)]);
    assert_eq!(absent.update_local(None, true, None, false, true), None);
    assert!(!absent.plunge_local_async());

    let unknown = replica_set(1, true, &[], &[]);
    assert_eq!(unknown.update_local(None, true, None, false, true), None);
    assert!(unknown.plunge_local_async());
}

#[test]
fn outcome_of_a_local_request() {
    assert_eq!(ShardReplicaSet::local_outcome::<u64>(None), Ok(None));
    assert_eq!(ShardReplicaSet::local_outcome(Some(Ok(3u64))), Ok(Some(3)));
    assert_eq!(ShardReplicaSet::local_outcome::<u64>(Some(Err(error("no")))), Err(error("no")));
}

#[test]
fn rate_limiter_cost_is_at_least_one() {
    assert_eq!(ShardReplicaSet::check_operation_write_rate_limiter(&Ok(0)), 1);
    assert_eq!(ShardReplicaSet::check_operation_write_rate_limiter(&Ok(1)), 1);
    assert_eq!(ShardReplicaSet::check_operation_write_rate_limiter(&Ok(17)), 17);
    assert_eq!(ShardReplicaSet::check_operation_write_rate_limiter(&Err(error("no"))), 1);
}

#[test]
fn clock_is_taken_or_waited_for() {
    assert_eq!(ShardReplicaSet::get_clock(Some(7u32)), ClockStep::Acquired(7));
    assert_eq!(ShardReplicaSet::get_clock::<u32>(None), ClockStep::Yield);
}

#[test]
fn failures_are_excused_by_state_and_error() {
    for state in ALL_STATES {
        let rs = replica_set(1, true, &[2], &[(2, state)]);
        let filling = rules().partial_or_recovery.contains(state);
        let ignored = matches!(
            state,
            ReplicaState::Dead | ReplicaState::Listener | ReplicaState::ManualRecovery
        );
        let from_state = if filling { None } else { Some(state) };
        let expected = |excused: bool| {
            if ignored || excused {
                vec![]
            } else {
                vec![Deactivation { peer_id: 2, from_state }]
            }
        };

        let handling = rs.handle_failed_replicas(&[(2, error("no"))], false);
        assert_eq!(handling.deactivations, expected(false));
        assert_eq!(
            handling.wait_for_deactivation,
            matches!(state, ReplicaState::Initializing)
        );

        let handling = rs.handle_failed_replicas(&[(2, transient("no"))], false);
        assert_eq!(handling.deactivations, expected(false));
        assert_eq!(handling.wait_for_deactivation, !ignored);

        let missing = ReplicaError { missing_point: true, ..transient("no") };
        let handling = rs.handle_failed_replicas(&[(2, missing.clone())], false);
        assert_eq!(handling.deactivations, expected(filling));
        let handling = rs.handle_failed_replicas(&[(2, missing)], true);
        assert_eq!(handling.deactivations, expected(true));
        assert!(!handling.wait_for_deactivation);

        let unexpected = ReplicaError { pre_condition_failed: true, ..transient("no") };
        let handling = rs.handle_failed_replicas(&[(2, unexpected)], true);
        assert_eq!(handling.deactivations, expected(filling));
    }
}

#[test]
fn unknown_replicas_are_not_deactivated() {
    let rs = replica_set(1, true, &[2], &[(3, ReplicaState::Active)]);
    let handling =
        rs.handle_failed_replicas(&[(2, transient("gone")), (3, error("broken"))], false);
    assert_eq!(
        handling.deactivations,
        vec![Deactivation { peer_id: 3, from_state: Some(ReplicaState::Active) }]
    );
    assert!(!handling.wait_for_deactivation);
}

#[test]
fn deactivation_is_over_when_no_replica_is_a_source_of_truth() {
    let mut rs = replica_set(1, true, &[2, 3], &[(2, ReplicaState::Active)]);
    assert!(!rs.replicas_deactivated(&[2, 3]));
    assert!(rs.replicas_deactivated(&[3]));
    assert!(rs.replicas_deactivated(&[]));
    // Being disabled locally is not enough
    rs.locally_disabled.insert(2);
    assert!(!rs.replicas_deactivated(&[2]));
    rs.peers.insert(2, ReplicaState::Dead);
    assert!(rs.replicas_deactivated(&[2, 3]));
}

#[test]
fn merge_takes_the_last_answer_of_the_highest_peer() {
    let successes = vec![
        (5, result(50, UpdateStatus::Acknowledged)),
        (9, result(90, UpdateStatus::Acknowledged)),
        (9, result(91, UpdateStatus::Acknowledged)),
        (7, result(70, UpdateStatus::Completed)),
    ];
    let merged = ShardReplicaSet::merge_successful_update_results(&successes);
    assert_eq!(merged, result(91, UpdateStatus::Completed));
}

#[test]
fn merge_ignores_the_order_of_answers() {
    let a = (1, result(10, UpdateStatus::Completed));
    let b = (2, result(20, UpdateStatus::Acknowledged));
    let c = (3, result(30, UpdateStatus::WaitTimeout));
    let expected = result(30, UpdateStatus::WaitTimeout);
    for successes in [[a, b, c], [a, c, b], [b, a, c], [b, c, a], [c, a, b], [c, b, a]] {
        assert_eq!(ShardReplicaSet::merge_successful_update_results(&successes), expected);
    }
}

#[test]
fn statuses_are_ranked() {
    let ranked = [
        UpdateStatus::ClockRejected,
        UpdateStatus::Acknowledged,
        UpdateStatus::Completed,
        UpdateStatus::WaitTimeout,
    ];
    for pair in ranked.windows(2) {
        assert!(pair[0].priority() < pair[1].priority());
    }
}

#[test]
fn statuses_are_found_among_answers() {
    let acknowledged = (1, result(10, UpdateStatus::Acknowledged));
    let completed = (2, result(20, UpdateStatus::Completed));
    let rejected = (3, result(30, UpdateStatus::ClockRejected));
    assert!(!has_completed(&[acknowledged, rejected]));
    assert!(has_completed(&[acknowledged, completed]));
    assert!(!has_clock_rejected(&[acknowledged, completed]));
    assert!(has_clock_rejected(&[completed, rejected]));
}

#[test]
fn newest_tick_of_the_same_clock_is_found() {
    let tag = ClockTag::new_with_token(1, 7, 10, 0);
    let echo = |clock_tag: Option<ClockTag>| {
        (2, UpdateResult { operation_id: None, status: UpdateStatus::Completed, clock_tag })
    };
    assert_eq!(newest_echoed_tick(&[], tag), None);
    assert_eq!(newest_echoed_tick(&[echo(None)], tag), None);
    let answers = [
        echo(Some(ClockTag { clock_tick: 12, ..tag })),
        echo(Some(ClockTag { clock_tick: 15, ..tag })),
        echo(Some(ClockTag { clock_tick: 11, ..tag })),
        echo(Some(ClockTag { clock_tick: 90, peer_id: 2, ..tag })),
        echo(Some(ClockTag { clock_tick: 91, clock_id: 8, ..tag })),
    ];
    assert_eq!(newest_echoed_tick(&answers, tag), Some(15));
    assert_eq!(newest_echoed_tick(&answers[3..], tag), None);
}

#[test]
fn targets_are_the_replicas_that_can_be_updated() {
    let mut rs = replica_set(
        1,
        true,
        &[2, 3, 4],
        &[
            (1, ReplicaState::Active),
            (2, ReplicaState::Active),
            (3, ReplicaState::Dead),
            (4, ReplicaState::Partial),
        ],
    );
    let replicas = ReplicaCount { local: true, remotes: 3 };
    assert_eq!(
        rs.select_update_targets(),
        Ok(UpdateTargets { remotes: vec![2, 4], replicas, hook: None })
    );

    rs.locally_disabled.insert(2);
    rs.locally_disabled.insert(4);
    assert_eq!(
        rs.select_update_targets(),
        Ok(UpdateTargets { remotes: vec![], replicas, hook: None })
    );

    rs.locally_disabled.insert(1);
    assert_eq!(
        rs.select_update_targets(),
        Err(CollectionError::ServiceError {
            error: "The replica set for shard 1 on peer 1 has no active replica".to_string(),
        })
    );
}

#[test]
fn local_replica_takes_part_by_its_state() {
    let rs = replica_set(1, true, &[], &[(1, ReplicaState::Active)]);
    assert_eq!(
        rs.plan_local_dispatch(true, true),
        Some(LocalDispatch { wait: true, check_rate_limit: true })
    );
    assert_eq!(rs.plan_local_dispatch(false, true), None);

    let rs = replica_set(1, true, &[], &[(1, ReplicaState::Listener)]);
    assert_eq!(
        rs.plan_local_dispatch(true, true),
        Some(LocalDispatch { wait: false, check_rate_limit: false })
    );

    let rs = replica_set(1, true, &[], &[(1, ReplicaState::Partial)]);
    assert_eq!(
        rs.plan_local_dispatch(true, false),
        Some(LocalDispatch { wait: false, check_rate_limit: false })
    );

    let rs = replica_set(1, true, &[], &[(1, ReplicaState::Dead)]);
    assert_eq!(rs.plan_local_dispatch(true, true), None);
}

#[test]
fn minimal_success_count_is_bounded_by_the_replicas() {
    let rs = replica_set(1, true, &[], &[]);
    let count =
        |local: bool, remotes: usize| rs.minimal_success_count(ReplicaCount { local, remotes });
    assert_eq!(count(false, 0), 0);
    assert_eq!(count(true, 0), 1);
    assert_eq!(count(false, 1), 1);
    assert_eq!(count(true, 1), 2);
    assert_eq!(count(true, 5), 2);
    assert_eq!(count(true, usize::MAX), 2);
}

fn three_replicas() -> ShardReplicaSet {
    replica_set(
        1,
        true,
        &[2, 3],
        &[
            (1, ReplicaState::Active),
            (2, ReplicaState::Active),
            (3, ReplicaState::Active),
        ],
    )
}

const THREE: ReplicaCount = ReplicaCount { local: true, remotes: 2 };

fn tag() -> ClockTag {
    ClockTag::new_with_token(1, 7, 10, 0)
}

#[test]
fn answers_are_split_in_order() {
    let rs = three_replicas();
    let replies: Vec<Reply> = vec![
        Ok((3, result(30, UpdateStatus::Completed))),
        Err((2, error("first"))),
        Ok((1, result(10, UpdateStatus::Completed))),
        Err((4, error("second"))),
    ];
    let assessment = rs.assess_replies(replies, THREE, tag(), false, false);
    match assessment.decision {
        Decision::Conclude(accepted) => {
            assert_eq!(
                accepted.successes,
                vec![
                    (3, result(30, UpdateStatus::Completed)),
                    (1, result(10, UpdateStatus::Completed)),
                ]
            );
            assert_eq!(accepted.failure_error, "Failed peer: 2, error: first");
        }
        other => panic!("unexpected: {other:?}"),
    }
}

#[test]
fn all_failures_count_once_the_update_is_applied() {
    let rs = three_replicas();
    let replies: Vec<Reply> = vec![
        Ok((1, result(10, UpdateStatus::Completed))),
        Ok((2, result(20, UpdateStatus::Acknowledged))),
        Err((3, error("bad request"))),
    ];
    let assessment = rs.assess_replies(replies, THREE, tag(), true, false);
    assert_eq!(
        assessment.deactivations,
        vec![Deactivation { peer_id: 3, from_state: Some(ReplicaState::Active) }]
    );
    // The failure is not transient, so nobody has to wait
    assert!(matches!(assessment.decision, Decision::Conclude(_)));
}

#[test]
fn only_transient_failures_count_before_the_update_is_applied() {
    let rs = three_replicas();
    let replies = |failure: ReplicaError| -> Vec<Reply> {
        vec![
            Ok((1, result(10, UpdateStatus::Acknowledged))),
            Ok((2, result(20, UpdateStatus::WaitTimeout))),
            Err((3, failure)),
        ]
    };
    let assessment = rs.assess_replies(replies(error("bad request")), THREE, tag(), true, false);
    assert_eq!(assessment.deactivations, vec![]);
    assert!(matches!(assessment.decision, Decision::Conclude(_)));

    let assessment = rs.assess_replies(replies(transient("away")), THREE, tag(), true, false);
    assert_eq!(assessment.deactivations.len(), 1);
    match assessment.decision {
        Decision::AwaitDeactivation { peer_ids, accepted } => {
            assert_eq!(peer_ids, vec![3]);
            assert_eq!(accepted.successes.len(), 2);
            assert_eq!(accepted.failure_error, "Failed peer: 3, error: away");
        }
        other => panic!("unexpected: {other:?}"),
    }

    // A client that does not wait is answered at once
    let assessment = rs.assess_replies(replies(transient("away")), THREE, tag(), false, false);
    assert_eq!(assessment.deactivations.len(), 1);
    assert!(matches!(assessment.decision, Decision::Conclude(_)));
}

#[test]
fn too_few_successes_hand_on_the_first_failure() {
    let mut rs = three_replicas();
    rs.peers.insert(3, ReplicaState::Resharding);
    let replies: Vec<Reply> = vec![
        Ok((1, result(10, UpdateStatus::Completed))),
        Err((2, error("first"))),
        Err((3, error("second"))),
    ];
    let assessment = rs.assess_replies(replies, THREE, tag(), true, false);
    assert_eq!(assessment.decision, Decision::Failed(CollectionError::Replica(error("first"))));
    // Of the failed replicas, only the resharding one is deactivated
    assert_eq!(
        assessment.deactivations,
        vec![Deactivation { peer_id: 3, from_state: Some(ReplicaState::Resharding) }]
    );
}

#[test]
fn few_successes_suffice_without_failures() {
    let rs = three_replicas();
    let replies: Vec<Reply> = vec![Ok((1, result(10, UpdateStatus::Completed)))];
    let assessment = rs.assess_replies(replies, THREE, tag(), true, false);
    assert_eq!(
        assessment.decision,
        Decision::Conclude(Accepted {
            successes: vec![(1, result(10, UpdateStatus::Completed))],
            failure_error: String::new(),
        })
    );
}

#[test]
fn clock_is_advanced_to_the_newest_echo() {
    let rs = three_replicas();
    let echo = |tick: u64| UpdateResult {
        operation_id: None,
        status: UpdateStatus::ClockRejected,
        clock_tag: Some(ClockTag { clock_tick: tick, ..tag() }),
    };
    let replies: Vec<Reply> = vec![Ok((1, echo(40))), Ok((2, echo(50))), Ok((3, echo(45)))];
    let assessment = rs.assess_replies(replies, THREE, tag(), true, false);
    assert_eq!(assessment.advance_clock_to, Some(50));
}

#[test]
fn accepted_attempts_come_to_a_result() {
    let mut rs = three_replicas();
    let accepted = |status: UpdateStatus| Accepted {
        successes: vec![(1, result(10, UpdateStatus::Completed)), (2, result(20, status))],
        failure_error: "Failed peer: 3, error: away".to_string(),
    };

    assert_eq!(
        rs.conclude_attempt(&accepted(UpdateStatus::Acknowledged), &[]),
        Ok(Some(result(20, UpdateStatus::Completed)))
    );
    assert_eq!(rs.conclude_attempt(&accepted(UpdateStatus::ClockRejected), &[]), Ok(None));

    rs.peers.insert(1, ReplicaState::Partial);
    rs.locally_disabled.insert(2);
    assert_eq!(
        rs.conclude_attempt(&accepted(UpdateStatus::ClockRejected), &[]),
        Err(CollectionError::ServiceError {
            error: "Failed to apply operation to at least one `Active` replica. \
                    Consistency of this update is not guaranteed. Please retry. \
                    Failed peer: 3, error: away"
                .to_string(),
        })
    );
}

#[test]
fn deactivated_replica_is_no_source_of_truth() {
    let rs = three_replicas();
    let accepted = Accepted {
        successes: vec![
            (1, result(10, UpdateStatus::Completed)),
            (2, result(20, UpdateStatus::Completed)),
        ],
        failure_error: String::new(),
    };
    let from_state = Some(ReplicaState::Active);
    let one = [Deactivation { peer_id: 2, from_state }];
    assert_eq!(
        rs.conclude_attempt(&accepted, &one),
        Ok(Some(result(20, UpdateStatus::Completed)))
    );
    let both = [one[0], Deactivation { peer_id: 1, from_state }];
    assert!(rs.conclude_attempt(&accepted, &both).is_err());
}

#[test]
fn resharding_replica_is_deactivated_once() {
    let mut rs = three_replicas();
    rs.peers.insert(3, ReplicaState::Resharding);
    let missing = ReplicaError { missing_point: true, ..error("missing") };
    let replies: Vec<Reply> = vec![
        Err((3, missing.clone())),
        Err((3, error("first"))),
        Err((3, error("second"))),
    ];
    let once = vec![Deactivation { peer_id: 3, from_state: Some(ReplicaState::Resharding) }];
    for update_only_existing in [false, true] {
        let assessment =
            rs.assess_replies(replies.clone(), THREE, tag(), true, update_only_existing);
        assert_eq!(assessment.deactivations, once);
        assert_eq!(
            assessment.decision,
            Decision::Failed(CollectionError::Replica(missing.clone()))
        );
    }
}

#[test]
fn accepted_update_deactivates_a_replica_for_each_failure() {
    let rs = three_replicas();
    let replies: Vec<Reply> = vec![
        Ok((1, result(10, UpdateStatus::Completed))),
        Ok((2, result(20, UpdateStatus::Completed))),
        Err((3, error("first"))),
        Err((3, error("second"))),
    ];
    let assessment = rs.assess_replies(replies, THREE, tag(), false, false);
    let deactivation = Deactivation { peer_id: 3, from_state: Some(ReplicaState::Active) };
    assert_eq!(assessment.deactivations, vec![deactivation, deactivation]);
}

#[test]
fn no_answer_at_all_is_an_error() {
    let rs = three_replicas();
    let assessment = rs.assess_replies(vec![], THREE, tag(), true, false);
    assert_eq!(assessment.advance_clock_to, None);
    assert_eq!(assessment.deactivations, vec![]);
    let accepted = Accepted { successes: vec![], failure_error: String::new() };
    assert!(rs.conclude_attempt(&accepted, &[]).is_err());
    assert_eq!(assessment.decision, Decision::Conclude(accepted));
}

#[test]
fn durations_stay_below_a_second_in_their_fraction() {
    assert_eq!(Duration::new(1, 1_000_000_000), None);
    let span = Duration::new(1, 500_000_000).unwrap();
    assert_eq!(span.as_secs(), 1);
    assert_eq!(span.subsec_nanos(), 500_000_000);
    assert_eq!(span.debug_text(), "1.5s");
    assert_eq!(Duration::from_secs(30).debug_text(), "30s");
    assert_eq!(Duration::longest().as_secs(), u64::MAX);
    assert_eq!(Duration::longest().subsec_nanos(), 999_999_999);
    assert_eq!(Duration::longest().debug_text(), format!("{:?}", std::time::Duration::MAX));
}
