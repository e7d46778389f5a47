//! Which replicas the answers to an update deactivate, answer by answer.

use vstd::prelude::*;
use crate::attempt::{transient_failures, ReplicaCount};
use crate::failures::{deactivated_peers, Deactivation};
use crate::laws_replies::{
    enough_took, lemma_counts, lemma_statuses, some_answered, some_failed,
};
use crate::merge::{any_completed, failures_of, successes_of, Reply};
use crate::replica_set::ReplicaSetView;
use crate::types::{ClockTag, UpdateStatus};
use crate::update::{Attempt, Update, UpdateEvent, UpdatePhase, UpdateStep};

verus! {

/// Handling the failures among the answers is the same as going through the answers.
proof fn lemma_deactivations_by_answer(
    rs: ReplicaSetView,
    replies: Seq<Reply>,
    update_only_existing: bool,
    all: bool,
    by_answer: spec_fn(Reply) -> Option<Deactivation>,
)
    requires
        forall|reply: Reply| #[trigger]
            by_answer(reply) == match reply {
                Ok(_) => None,
                Err(failure) => if all || failure.1.transient {
                    rs.deactivation(failure, update_only_existing)
                } else {
                    None
                },
            },
    ensures
        rs.deactivations(
            if all {
                failures_of(replies)
            } else {
                transient_failures(failures_of(replies))
            },
            update_only_existing,
        ) == replies.filter_map(by_answer),
    decreases replies.len(),
{
    reveal(Seq::filter);
    let failures = failures_of(replies);
    let handled = if all {
        failures
    } else {
        transient_failures(failures)
    };
    if replies.len() == 0 {
        assert(handled.len() == 0);
        assert(rs.deactivations(handled, update_only_existing) =~= replies.filter_map(by_answer));
    } else {
        let before = replies.drop_last();
        lemma_deactivations_by_answer(rs, before, update_only_existing, all, by_answer);
        if let Err(failure) = replies.last() {
            let earlier = failures_of(before);
            assert(failures == earlier.push(failure));
            assert(failures.drop_last() =~= earlier);
            if all || failure.1.transient {
                let kept = if all {
                    earlier
                } else {
                    transient_failures(earlier)
                };
                assert(handled =~= kept.push(failure));
                assert(handled.drop_last() =~= kept);
            }
        }
        assert(rs.deactivations(handled, update_only_existing) =~= replies.filter_map(by_answer));
    }
}

/// The answers to an accepted update deactivate, in their order, every replica whose failure is
/// not excused and counts. All failures count once some replica has applied the update in full;
/// until then, only those that may pass by themselves do.
pub proof fn law_accepted_update_deactivates_failed_replicas(
    rs: ReplicaSetView,
    update: Update,
    attempt: Attempt,
    replicas: ReplicaCount,
    clock_tag: ClockTag,
    replies: Vec<Reply>,
    step: UpdateStep,
)
    requires
        update.phase == (UpdatePhase::Dispatching { attempt, replicas, clock_tag }),
        rs.steps_to(update, UpdateEvent::Replied(replies), step),
        enough_took(rs, replies@, replicas) || !some_failed(replies@),
    ensures
        step.deactivations@ == replies@.filter_map(
            |reply: Reply|
                match reply {
                    Ok(_) => None,
                    Err((peer_id, error)) => if !error.transient && !some_answered(
                        replies@,
                        UpdateStatus::Completed,
                    ) {
                        None
                    } else if !rs.must_deactivate(
                        (peer_id, error),
                        update.request.update_only_existing,
                    ) {
                        None
                    } else if rs.state_rules.partial_or_recovery.has(rs.peers[peer_id]) {
                        Some(Deactivation { peer_id, from_state: None })
                    } else {
                        Some(Deactivation { peer_id, from_state: Some(rs.peers[peer_id]) })
                    },
                },
        ),
{
    let by_answer = |reply: Reply|
        match reply {
            Ok(_) => None,
            Err((peer_id, error)) => if !error.transient && !some_answered(
                replies@,
                UpdateStatus::Completed,
            ) {
                None
            } else if !rs.must_deactivate((peer_id, error), update.request.update_only_existing) {
                None
            } else if rs.state_rules.partial_or_recovery.has(rs.peers[peer_id]) {
                Some(Deactivation { peer_id, from_state: None })
            } else {
                Some(Deactivation { peer_id, from_state: Some(rs.peers[peer_id]) })
            },
        };
    let only_existing = update.request.update_only_existing;
    let all = any_completed(successes_of(replies@));
    lemma_counts(rs, replies@, replicas);
    lemma_statuses(replies@);
    lemma_deactivations_by_answer(rs, replies@, only_existing, all, by_answer);
    if !rs.enough_successes(successes_of(replies@), replicas) {
        reveal(Seq::filter);
        assert(failures_of(replies@).len() == 0);
        assert(rs.resharding_failures(failures_of(replies@), only_existing) =~= Seq::empty());
        assert(transient_failures(failures_of(replies@)) =~= Seq::empty());
        assert(failures_of(replies@) =~= Seq::empty());
    }
}

/// The answer at `i` is the first failure of a trusted resharding replica that is not excused.
pub open spec fn first_breaks(
    rs: ReplicaSetView,
    replies: Seq<Reply>,
    update_only_existing: bool,
    i: int,
) -> bool {
    &&& 0 <= i < replies.len()
    &&& replies[i] is Err
    &&& rs.peer_is_resharding((replies[i]->Err_0).0)
    &&& rs.must_deactivate(replies[i]->Err_0, update_only_existing)
    &&& forall|j: int|
        0 <= j < i && (#[trigger] replies[j]) is Err && (replies[j]->Err_0).0 == (
        replies[i]->Err_0).0 ==> !rs.must_deactivate(replies[j]->Err_0, update_only_existing)
}

/// Whether `at` lists, in order, the answers for which `deactivations` are asked.
pub open spec fn asks_at(
    rs: ReplicaSetView,
    replies: Seq<Reply>,
    update_only_existing: bool,
    deactivations: Seq<Deactivation>,
    at: Seq<int>,
) -> bool {
    &&& at.len() == deactivations.len()
    &&& forall|k: int, l: int| 0 <= k < l < at.len() ==> #[trigger] at[k] < #[trigger] at[l]
    &&& forall|k: int|
        0 <= k < at.len() ==> {
            &&& first_breaks(rs, replies, update_only_existing, #[trigger] at[k])
            &&& deactivations[k].peer_id == (replies[at[k]]->Err_0).0
            &&& deactivations[k].from_state == if rs.state_rules.partial_or_recovery.has(
                rs.peers[deactivations[k].peer_id],
            ) {
                None
            } else {
                Some(rs.peers[deactivations[k].peer_id])
            }
        }
    &&& forall|i: int| #[trigger]
        first_breaks(rs, replies, update_only_existing, i) ==> at.contains(i)
}

proof fn lemma_resharding_by_answer(
    rs: ReplicaSetView,
    replies: Seq<Reply>,
    update_only_existing: bool,
) -> (at: Seq<int>)
    ensures
        asks_at(
            rs,
            replies,
            update_only_existing,
            rs.deactivations(
                rs.resharding_failures(failures_of(replies), update_only_existing),
                update_only_existing,
            ),
            at,
        ),
    decreases replies.len(),
{
    let failures = failures_of(replies);
    let kept = rs.resharding_failures(failures, update_only_existing);
    let deactivations = rs.deactivations(kept, update_only_existing);
    if replies.len() == 0 {
        assert(deactivations.len() == 0);
        Seq::empty()
    } else {
        let before = replies.drop_last();
        let last = replies.len() - 1;
        let at = lemma_resharding_by_answer(rs, before, update_only_existing);
        let kept_before = rs.resharding_failures(failures_of(before), update_only_existing);
        let earlier = rs.deactivations(kept_before, update_only_existing);
        assert forall|i: int| 0 <= i < last implies #[trigger] first_breaks(
            rs,
            replies,
            update_only_existing,
            i,
        ) == first_breaks(rs, before, update_only_existing, i) by {
            assert(before[i] == replies[i]);
            assert forall|j: int| 0 <= j < i implies before[j] == #[trigger] replies[j] by {}
            if first_breaks(rs, replies, update_only_existing, i) {
                assert forall|j: int|
                    0 <= j < i && (#[trigger] before[j]) is Err && (before[j]->Err_0).0 == (
                    before[i]->Err_0).0 implies !rs.must_deactivate(
                    before[j]->Err_0,
                    update_only_existing,
                ) by {
                    assert(replies[j] is Err);
                }
            }
            if first_breaks(rs, before, update_only_existing, i) {
                assert forall|j: int|
                    0 <= j < i && (#[trigger] replies[j]) is Err && (replies[j]->Err_0).0 == (
                    replies[i]->Err_0).0 implies !rs.must_deactivate(
                    replies[j]->Err_0,
                    update_only_existing,
                ) by {
                    assert(before[j] is Err);
                }
            }
        }
        if replies.last() is Ok {
            assert(failures == failures_of(before));
            assert forall|k: int| 0 <= k < at.len() implies first_breaks(
                rs,
                replies,
                update_only_existing,
                #[trigger] at[k],
            ) by {
                assert(first_breaks(rs, before, update_only_existing, at[k]));
            }
            assert forall|i: int| #[trigger]
                first_breaks(rs, replies, update_only_existing, i) implies at.contains(i) by {
                assert(first_breaks(rs, before, update_only_existing, i));
            }
            at
        } else {
            let failure = replies.last()->Err_0;
            assert(failures.drop_last() =~= failures_of(before));
            assert(failures.last() == failure);
            assert(kept_before.push(failure).drop_last() =~= kept_before);
            // An earlier failure has already broken the trust exactly if it is acted upon
            let broken = deactivated_peers(earlier).contains(failure.0);
            if broken {
                let k = choose|k: int|
                    0 <= k < earlier.len() && (#[trigger] earlier[k]).peer_id == failure.0;
                assert(first_breaks(rs, before, update_only_existing, at[k]));
                assert(replies[at[k]] == before[at[k]]);
                assert(!first_breaks(rs, replies, update_only_existing, last));
            } else if rs.peer_is_resharding(failure.0) {
                assert forall|j: int|
                    0 <= j < last && (#[trigger] replies[j]) is Err && (replies[j]->Err_0).0
                        == failure.0 implies !rs.must_deactivate(
                    replies[j]->Err_0,
                    update_only_existing,
                ) by {
                    if rs.must_deactivate(replies[j]->Err_0, update_only_existing) {
                        lemma_first_break_exists(rs, replies, update_only_existing, j);
                        let i = choose|i: int|
                            i <= j && #[trigger] first_breaks(
                                rs,
                                replies,
                                update_only_existing,
                                i,
                            ) && (replies[i]->Err_0).0 == failure.0;
                        assert(first_breaks(rs, before, update_only_existing, i));
                        let k = choose|k: int| 0 <= k < at.len() && at[k] == i;
                        assert(before[i] == replies[i]);
                        assert(earlier[k].peer_id == failure.0);
                    }
                }
            }
            let acts = first_breaks(rs, replies, update_only_existing, last);
            if acts {
                let now = at.push(last);
                assert(deactivations == earlier.push(
                    Deactivation {
                        peer_id: failure.0,
                        from_state: rs.deactivated_from(failure.0),
                    },
                ));
                assert forall|k: int| 0 <= k < now.len() implies first_breaks(
                    rs,
                    replies,
                    update_only_existing,
                    #[trigger] now[k],
                ) && deactivations[k].peer_id == (replies[now[k]]->Err_0).0 by {
                    if k < at.len() {
                        assert(now[k] == at[k]);
                        assert(first_breaks(rs, before, update_only_existing, at[k]));
                        assert(before[at[k]] == replies[at[k]]);
                    }
                }
                assert forall|i: int| #[trigger]
                    first_breaks(rs, replies, update_only_existing, i) implies now.contains(i) by {
                    if i < last {
                        assert(first_breaks(rs, before, update_only_existing, i));
                        let k = choose|k: int| 0 <= k < at.len() && at[k] == i;
                        assert(now[k] == i);
                    } else {
                        assert(now[at.len() as int] == i);
                    }
                }
                assert forall|k: int| 0 <= k < now.len() implies deactivations[k].from_state
                    == #[trigger] rs.deactivated_from(deactivations[k].peer_id) by {
                    if k < at.len() {
                        assert(deactivations[k] == earlier[k]);
                        assert(first_breaks(rs, before, update_only_existing, at[k]));
                    }
                }
                assert forall|k: int| 0 <= k < now.len() implies deactivations[k].from_state
                    == if rs.state_rules.partial_or_recovery.has(
                    rs.peers[deactivations[k].peer_id],
                ) {
                    None
                } else {
                    Some(rs.peers[(#[trigger] deactivations[k]).peer_id])
                } by {
                    assert(deactivations[k].from_state == rs.deactivated_from(
                        deactivations[k].peer_id,
                    ));
                }
                now
            } else {
                assert(deactivations == earlier);
                assert forall|k: int| 0 <= k < at.len() implies first_breaks(
                    rs,
                    replies,
                    update_only_existing,
                    #[trigger] at[k],
                ) && deactivations[k].peer_id == (replies[at[k]]->Err_0).0 by {
                    assert(first_breaks(rs, before, update_only_existing, at[k]));
                    assert(before[at[k]] == replies[at[k]]);
                }
                assert forall|i: int| #[trigger]
                    first_breaks(rs, replies, update_only_existing, i) implies at.contains(i) by {
                    assert(first_breaks(rs, before, update_only_existing, i));
                }
                at
            }
        }
    }
}

/// Where a resharding replica fails without excuse, there is a first such failure of it.
proof fn lemma_first_break_exists(
    rs: ReplicaSetView,
    replies: Seq<Reply>,
    update_only_existing: bool,
    j: int,
)
    requires
        0 <= j < replies.len(),
        replies[j] is Err,
        rs.peer_is_resharding((replies[j]->Err_0).0),
        rs.must_deactivate(replies[j]->Err_0, update_only_existing),
    ensures
        exists|i: int|
            i <= j && #[trigger] first_breaks(rs, replies, update_only_existing, i) && (
            replies[i]->Err_0).0 == (replies[j]->Err_0).0,
    decreases j,
{
    if !first_breaks(rs, replies, update_only_existing, j) {
        let earlier = choose|i: int|
            0 <= i < j && (#[trigger] replies[i]) is Err && (replies[i]->Err_0).0 == (
            replies[j]->Err_0).0 && rs.must_deactivate(replies[i]->Err_0, update_only_existing);
        lemma_first_break_exists(rs, replies, update_only_existing, earlier);
    }
}

/// If too few replicas took an update, exactly the trusted resharding replicas are deactivated
/// that failed without excuse, once each, in the order of their first such failures.
pub proof fn law_failed_update_deactivates_broken_resharding_replicas(
    rs: ReplicaSetView,
    update: Update,
    attempt: Attempt,
    replicas: ReplicaCount,
    clock_tag: ClockTag,
    replies: Vec<Reply>,
    step: UpdateStep,
)
    requires
        update.phase == (UpdatePhase::Dispatching { attempt, replicas, clock_tag }),
        rs.steps_to(update, UpdateEvent::Replied(replies), step),
        some_failed(replies@),
        !enough_took(rs, replies@, replicas),
    ensures
        exists|at: Seq<int>| #[trigger]
            asks_at(
                rs,
                replies@,
                update.request.update_only_existing,
                step.deactivations@,
                at,
            ),
{
    lemma_counts(rs, replies@, replicas);
    let at = lemma_resharding_by_answer(rs, replies@, update.request.update_only_existing);
}

} // verus!
