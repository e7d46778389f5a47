//! What the answers of replicas lead to, answer by answer.
//!
//! The laws speak of the answers as they come in, and of what the step that they lead to does.

use vstd::prelude::*;
use crate::attempt::{transient_failures, Accepted, ReplicaCount};
use crate::duration::duration_debug;
use crate::merge::{
    any_clock_rejected, any_completed, failures_of, is_from_highest_peer, is_merge_of,
    is_newest_echo, successes_of, Reply,
};
use crate::messages::first_failure_text;
use crate::replica_set::ReplicaSetView;
use crate::text::decimal;
use crate::types::{
    ClockTag, CollectionError, PeerId, ReplicaError, ReplicaState, UpdateResult, UpdateStatus,
};
use crate::update::{Attempt, Update, UpdateAction, UpdateEvent, UpdatePhase, UpdateStep};

verus! {

// What can be said of answers

/// How many replicas took the update.
pub open spec fn ok_count(replies: Seq<Reply>) -> nat {
    replies.filter(|reply: Reply| reply is Ok).len()
}

/// Some replica failed.
pub open spec fn some_failed(replies: Seq<Reply>) -> bool {
    exists|i: int| 0 <= i < replies.len() && (#[trigger] replies[i]) is Err
}

/// Some replica took the update and answered with this status.
pub open spec fn some_answered(replies: Seq<Reply>, status: UpdateStatus) -> bool {
    exists|i: int|
        0 <= i < replies.len() && (#[trigger] replies[i]) is Ok && (replies[i]->Ok_0).1.status
            == status
}

/// As many replicas took the update as the write consistency factor asks for, or as there are.
pub open spec fn enough_took(
    rs: ReplicaSetView,
    replies: Seq<Reply>,
    replicas: ReplicaCount,
) -> bool {
    ||| ok_count(replies) >= rs.write_consistency_factor
    ||| ok_count(replies) >= replicas.remotes + if replicas.local {
        1int
    } else {
        0int
    }
}

/// Some replica that took the update is a trusted source of truth, and is not among those that
/// the step deactivates.
pub open spec fn some_source_of_truth_took(
    rs: ReplicaSetView,
    replies: Seq<Reply>,
    step: UpdateStep,
) -> bool {
    exists|i: int|
        {
            &&& 0 <= i < replies.len()
            &&& (#[trigger] replies[i]) is Ok
            &&& rs.peer_can_be_source_of_truth((replies[i]->Ok_0).0)
            &&& forall|k: int|
                0 <= k < step.deactivations@.len() ==> (#[trigger] step.deactivations@[k]).peer_id
                    != (replies[i]->Ok_0).0
        }
}

/// Some failure that is acted upon may pass by itself, or is one of a replica that is being
/// initialized.
pub open spec fn some_failure_holds_up(
    rs: ReplicaSetView,
    replies: Seq<Reply>,
    update_only_existing: bool,
) -> bool {
    exists|i: int|
        {
            &&& 0 <= i < replies.len()
            &&& (#[trigger] replies[i]) is Err
            &&& rs.must_deactivate(replies[i]->Err_0, update_only_existing)
            &&& (replies[i]->Err_0).1.transient || (rs.peers[(replies[i]->Err_0).0]
                == ReplicaState::Initializing && some_answered(replies, UpdateStatus::Completed))
        }
}

/// `text` tells of the first failure among the answers, or is empty if there is none.
pub open spec fn tells_of_first_failure(replies: Seq<Reply>, text: Seq<char>) -> bool {
    &&& !some_failed(replies) ==> text.len() == 0
    &&& some_failed(replies) ==> exists|i: int|
        {
            &&& 0 <= i < replies.len()
            &&& (#[trigger] replies[i]) is Err
            &&& forall|j: int| 0 <= j < i ==> (#[trigger] replies[j]) is Ok
            &&& text == "Failed peer: "@ + decimal((replies[i]->Err_0).0 as nat) + ", error: "@ + (
            replies[i]->Err_0).1.text@
        }
}

/// `result` sums up what replicas answered: it is the answer of the highest peer, and of its last
/// one if that peer answered several times, except for its status. The status is `WaitTimeout` if
/// any of them is, else `Completed` if any of them is, else `Acknowledged` if any of them is.
pub open spec fn sums_up(result: UpdateResult, answers: Seq<(PeerId, UpdateResult)>) -> bool {
    &&& exists|k: int|
        {
            &&& 0 <= k < answers.len()
            &&& result.operation_id == (#[trigger] answers[k]).1.operation_id
            &&& result.clock_tag == answers[k].1.clock_tag
            &&& forall|j: int| 0 <= j < answers.len() ==> (#[trigger] answers[j]).0 <= answers[k].0
            &&& forall|j: int| k < j < answers.len() ==> (#[trigger] answers[j]).0 != answers[k].0
        }
    &&& result.status is WaitTimeout <==> exists|j: int|
        0 <= j < answers.len() && (#[trigger] answers[j]).1.status is WaitTimeout
    &&& result.status is Completed <==> {
        &&& exists|j: int| 0 <= j < answers.len() && (#[trigger] answers[j]).1.status is Completed
        &&& !(result.status is WaitTimeout)
    }
    &&& result.status is Acknowledged <==> {
        &&& exists|j: int|
            0 <= j < answers.len() && (#[trigger] answers[j]).1.status is Acknowledged
        &&& !(result.status is WaitTimeout)
        &&& !(result.status is Completed)
    }
}

/// The answers of the replicas that took the update, as they came in.
pub open spec fn taken(replies: Seq<Reply>) -> Seq<(PeerId, UpdateResult)> {
    replies.filter(|reply: Reply| reply is Ok).map_values(|reply: Reply| reply->Ok_0)
}

// From the answers to the two lists that they are split into

proof fn lemma_split(replies: Seq<Reply>)
    ensures
        successes_of(replies) == taken(replies),
        failures_of(replies) == replies.filter(|reply: Reply| reply is Err).map_values(
            |reply: Reply| reply->Err_0,
        ),
    decreases replies.len(),
{
    reveal(Seq::filter);
    let failed = replies.filter(|reply: Reply| reply is Err).map_values(
        |reply: Reply| reply->Err_0,
    );
    if replies.len() > 0 {
        lemma_split(replies.drop_last());
    }
    assert(successes_of(replies) =~= taken(replies));
    assert(failures_of(replies) =~= failed);
}

/// Where each success stands among the answers.
proof fn lemma_success_places(replies: Seq<Reply>) -> (at: Seq<int>)
    ensures
        at.len() == successes_of(replies).len(),
        forall|k: int|
            0 <= k < at.len() ==> 0 <= #[trigger] at[k] < replies.len() && replies[at[k]] is Ok
                && replies[at[k]]->Ok_0 == successes_of(replies)[k],
        forall|k: int, l: int| 0 <= k < l < at.len() ==> #[trigger] at[k] < #[trigger] at[l],
        forall|i: int|
            0 <= i < replies.len() && (#[trigger] replies[i]) is Ok ==> at.contains(i),
    decreases replies.len(),
{
    if replies.len() == 0 {
        Seq::empty()
    } else {
        let last = replies.len() - 1;
        let before = lemma_success_places(replies.drop_last());
        if replies.last() is Ok {
            let at = before.push(last);
            assert(successes_of(replies) == successes_of(replies.drop_last()).push(
                replies.last()->Ok_0,
            ));
            assert forall|i: int| 0 <= i < replies.len() && (#[trigger] replies[i]) is Ok implies
                at.contains(i) by {
                if i < last {
                    assert(replies.drop_last()[i] is Ok);
                    let k = choose|k: int| 0 <= k < before.len() && before[k] == i;
                    assert(at[k] == i);
                } else {
                    assert(at[before.len() as int] == i);
                }
            }
            at
        } else {
            assert forall|i: int| 0 <= i < replies.len() && (#[trigger] replies[i]) is Ok implies
                before.contains(i) by {
                assert(replies.drop_last()[i] is Ok);
            }
            before
        }
    }
}

/// Where each failure stands among the answers.
proof fn lemma_failure_places(replies: Seq<Reply>) -> (at: Seq<int>)
    ensures
        at.len() == failures_of(replies).len(),
        forall|k: int|
            0 <= k < at.len() ==> 0 <= #[trigger] at[k] < replies.len() && replies[at[k]] is Err
                && replies[at[k]]->Err_0 == failures_of(replies)[k],
        forall|k: int, l: int| 0 <= k < l < at.len() ==> #[trigger] at[k] < #[trigger] at[l],
        forall|i: int|
            0 <= i < replies.len() && (#[trigger] replies[i]) is Err ==> at.contains(i),
    decreases replies.len(),
{
    if replies.len() == 0 {
        Seq::empty()
    } else {
        let last = replies.len() - 1;
        let before = lemma_failure_places(replies.drop_last());
        if replies.last() is Err {
            let at = before.push(last);
            assert(failures_of(replies) == failures_of(replies.drop_last()).push(
                replies.last()->Err_0,
            ));
            assert forall|i: int| 0 <= i < replies.len() && (#[trigger] replies[i]) is Err implies
                at.contains(i) by {
                if i < last {
                    assert(replies.drop_last()[i] is Err);
                    let k = choose|k: int| 0 <= k < before.len() && before[k] == i;
                    assert(at[k] == i);
                } else {
                    assert(at[before.len() as int] == i);
                }
            }
            at
        } else {
            assert forall|i: int| 0 <= i < replies.len() && (#[trigger] replies[i]) is Err implies
                before.contains(i) by {
                assert(replies.drop_last()[i] is Err);
            }
            before
        }
    }
}

pub(crate) proof fn lemma_counts(rs: ReplicaSetView, replies: Seq<Reply>, replicas: ReplicaCount)
    ensures
        successes_of(replies).len() == ok_count(replies),
        failures_of(replies).len() > 0 <==> some_failed(replies),
        rs.enough_successes(successes_of(replies), replicas) <==> enough_took(
            rs,
            replies,
            replicas,
        ),
{
    lemma_split(replies);
    let at = lemma_failure_places(replies);
    if failures_of(replies).len() > 0 {
        assert(replies[at[0]] is Err);
    }
    if some_failed(replies) {
        let i = choose|i: int| 0 <= i < replies.len() && (#[trigger] replies[i]) is Err;
        assert(at.contains(i));
    }
}

pub(crate) proof fn lemma_statuses(replies: Seq<Reply>)
    ensures
        any_completed(successes_of(replies)) <==> some_answered(replies, UpdateStatus::Completed),
        any_clock_rejected(successes_of(replies)) <==> some_answered(
            replies,
            UpdateStatus::ClockRejected,
        ),
{
    let successes = successes_of(replies);
    let at = lemma_success_places(replies);
    if any_completed(successes) {
        let k = choose|k: int|
            0 <= k < successes.len() && (#[trigger] successes[k]).1.status is Completed;
        assert(replies[at[k]] is Ok);
    }
    if any_clock_rejected(successes) {
        let k = choose|k: int|
            0 <= k < successes.len() && (#[trigger] successes[k]).1.status is ClockRejected;
        assert(replies[at[k]] is Ok);
    }
    assert forall|i: int| 0 <= i < replies.len() && (#[trigger] replies[i]) is Ok implies exists|
        k: int,
    | 0 <= k < successes.len() && #[trigger] successes[k] == replies[i]->Ok_0 by {
        let k = choose|k: int| 0 <= k < at.len() && at[k] == i;
        assert(successes[k] == replies[i]->Ok_0);
    }
}

proof fn lemma_first_failure(replies: Seq<Reply>)
    requires
        some_failed(replies),
    ensures
        exists|i: int|
            {
                &&& 0 <= i < replies.len()
                &&& (#[trigger] replies[i]) is Err
                &&& forall|j: int| 0 <= j < i ==> (#[trigger] replies[j]) is Ok
                &&& replies[i]->Err_0 == failures_of(replies)[0]
            },
        failures_of(replies).len() > 0,
{
    let at = lemma_failure_places(replies);
    let any = choose|i: int| 0 <= i < replies.len() && (#[trigger] replies[i]) is Err;
    assert(at.contains(any));
    let i = at[0];
    assert(replies[i] is Err);
    assert forall|j: int| 0 <= j < i implies (#[trigger] replies[j]) is Ok by {
        if replies[j] is Err {
            let k = choose|k: int| 0 <= k < at.len() && at[k] == j;
            assert(at[0] <= at[k]);
        }
    }
}

proof fn lemma_holds_up(
    rs: ReplicaSetView,
    replies: Seq<Reply>,
    replicas: ReplicaCount,
    update_only_existing: bool,
)
    requires
        rs.enough_successes(successes_of(replies), replicas),
    ensures
        rs.any_holds_up(
            rs.handled_failures(
                successes_of(replies),
                failures_of(replies),
                replicas,
                update_only_existing,
            ),
            update_only_existing,
        ) <==> some_failure_holds_up(rs, replies, update_only_existing),
{
    lemma_statuses(replies);
    let successes = successes_of(replies);
    let failures = failures_of(replies);
    let transient = |failure: (PeerId, ReplicaError)| failure.1.transient;
    let handled = rs.handled_failures(successes, failures, replicas, update_only_existing);
    let at = lemma_failure_places(replies);
    if rs.any_holds_up(handled, update_only_existing) {
        let k = choose|k: int|
            0 <= k < handled.len() && rs.holds_up(#[trigger] handled[k], update_only_existing);
        assert(handled.contains(handled[k]));
        if !any_completed(successes) {
            failures.lemma_filter_pred(transient, k);
            failures.lemma_filter_contains_rev(transient, handled[k]);
        }
        let f = choose|f: int| 0 <= f < failures.len() && failures[f] == handled[k];
        assert(replies[at[f]] is Err && replies[at[f]]->Err_0 == handled[k]);
    }
    if some_failure_holds_up(rs, replies, update_only_existing) {
        let i = choose|i: int|
            {
                &&& 0 <= i < replies.len()
                &&& (#[trigger] replies[i]) is Err
                &&& rs.must_deactivate(replies[i]->Err_0, update_only_existing)
                &&& (replies[i]->Err_0).1.transient || (rs.peers[(replies[i]->Err_0).0]
                    == ReplicaState::Initializing && some_answered(
                    replies,
                    UpdateStatus::Completed,
                ))
            };
        let f = choose|f: int| 0 <= f < at.len() && at[f] == i;
        assert(failures[f] == replies[i]->Err_0);
        if !any_completed(successes) {
            failures.lemma_filter_contains(transient, f);
        } else {
            assert(handled.contains(handled[f]));
        }
        let k = choose|k: int| 0 <= k < handled.len() && handled[k] == failures[f];
        assert(rs.holds_up(handled[k], update_only_existing));
    }
}

proof fn lemma_backed(rs: ReplicaSetView, replies: Seq<Reply>, step: UpdateStep)
    ensures
        rs.disabling(step.deactivations@).any_source_of_truth(successes_of(replies))
            <==> some_source_of_truth_took(rs, replies, step),
{
    let disabled = rs.disabling(step.deactivations@);
    let successes = successes_of(replies);
    let at = lemma_success_places(replies);
    if disabled.any_source_of_truth(successes) {
        let k = choose|k: int|
            0 <= k < successes.len() && disabled.peer_can_be_source_of_truth(
                (#[trigger] successes[k]).0,
            );
        assert(replies[at[k]] is Ok);
    }
    if some_source_of_truth_took(rs, replies, step) {
        let i = choose|i: int|
            {
                &&& 0 <= i < replies.len()
                &&& (#[trigger] replies[i]) is Ok
                &&& rs.peer_can_be_source_of_truth((replies[i]->Ok_0).0)
                &&& forall|k: int|
                    0 <= k < step.deactivations@.len() ==> (
                    #[trigger] step.deactivations@[k]).peer_id != (replies[i]->Ok_0).0
            };
        let k = choose|k: int| 0 <= k < at.len() && at[k] == i;
        assert(disabled.peer_can_be_source_of_truth(successes[k].0));
    }
}

// Single answers

/// How answers are summed up, by the peers and the statuses that occur among them.
pub proof fn law_how_answers_are_summed_up(
    merged: UpdateResult,
    answers: Seq<(PeerId, UpdateResult)>,
)
    requires
        is_merge_of(merged, answers),
    ensures
        sums_up(merged, answers),
{
    let k = choose|k: int|
        is_from_highest_peer(answers, k) && merged == (UpdateResult {
            status: merged.status,
            ..(#[trigger] answers[k]).1
        });
    assert(merged.operation_id == answers[k].1.operation_id);
    assert(forall|j: int| k < j < answers.len() ==> (#[trigger] answers[j]).0 < answers[k].0);
    let at = choose|j: int|
        0 <= j < answers.len() && (#[trigger] answers[j]).1.status == merged.status;
    assert(answers[at].1.status == merged.status);
    assert forall|j: int| 0 <= j < answers.len() implies (
    #[trigger] answers[j]).1.status.priority() <= merged.status.priority() by {}
}

/// Whether some answer is that the update was applied in full, or was rejected because of its
/// clock, is a matter of that answer alone.
pub proof fn law_one_answer_is_enough(answers: Seq<(PeerId, UpdateResult)>)
    ensures
        any_completed(answers) <==> exists|i: int|
            0 <= i < answers.len() && (#[trigger] answers[i]).1.status == UpdateStatus::Completed,
        any_clock_rejected(answers) <==> exists|i: int|
            0 <= i < answers.len() && (#[trigger] answers[i]).1.status
                == UpdateStatus::ClockRejected,
{
}

/// The newest echo is one of the ticks that the answers echo of the same clock of the same peer,
/// and none of these is newer. There is none only if no answer echoes that clock.
pub proof fn law_newest_echo(
    answers: Seq<(PeerId, UpdateResult)>,
    clock_tag: ClockTag,
    newest: Option<u64>,
    i: int,
)
    requires
        is_newest_echo(answers, clock_tag, newest),
    ensures
        0 <= i < answers.len() && (answers[i].1.clock_tag matches Some(echo) && echo.peer_id
            == clock_tag.peer_id && echo.clock_id == clock_tag.clock_id) ==> (newest matches Some(
            tick,
        ) && tick >= answers[i].1.clock_tag->0.clock_tick),
        newest matches Some(tick) ==> exists|k: int|
            {
                &&& 0 <= k < answers.len()
                &&& (#[trigger] answers[k]).1.clock_tag is Some
                &&& answers[k].1.clock_tag->0.peer_id == clock_tag.peer_id
                &&& answers[k].1.clock_tag->0.clock_id == clock_tag.clock_id
                &&& answers[k].1.clock_tag->0.clock_tick == tick
            },
{
}

// The step that answers lead to

/// Whatever else the answers say, the clock of the update is advanced to the newest tick of it
/// that any replica which took the update echoes, and to no other.
pub proof fn law_clock_follows_the_newest_echo(
    rs: ReplicaSetView,
    update: Update,
    attempt: Attempt,
    replicas: ReplicaCount,
    clock_tag: ClockTag,
    replies: Vec<Reply>,
    step: UpdateStep,
    i: int,
)
    requires
        update.phase == (UpdatePhase::Dispatching { attempt, replicas, clock_tag }),
        rs.steps_to(update, UpdateEvent::Replied(replies), step),
    ensures
        0 <= i < replies@.len() && replies@[i] is Ok && ((
        replies@[i]->Ok_0).1.clock_tag matches Some(echo) && echo.peer_id == clock_tag.peer_id
            && echo.clock_id == clock_tag.clock_id) ==> (step.advance_clock_to matches Some(tick)
            && tick >= (replies@[i]->Ok_0).1.clock_tag->0.clock_tick),
        step.advance_clock_to matches Some(tick) ==> exists|k: int|
            {
                &&& 0 <= k < replies@.len()
                &&& (#[trigger] replies@[k]) is Ok
                &&& (replies@[k]->Ok_0).1.clock_tag is Some
                &&& (replies@[k]->Ok_0).1.clock_tag->0.peer_id == clock_tag.peer_id
                &&& (replies@[k]->Ok_0).1.clock_tag->0.clock_id == clock_tag.clock_id
                &&& (replies@[k]->Ok_0).1.clock_tag->0.clock_tick == tick
            },
{
    let successes = successes_of(replies@);
    let at = lemma_success_places(replies@);
    if 0 <= i < replies@.len() && replies@[i] is Ok {
        let k = choose|k: int| 0 <= k < at.len() && at[k] == i;
        law_newest_echo(successes, clock_tag, step.advance_clock_to, k);
    }
    law_newest_echo(successes, clock_tag, step.advance_clock_to, 0);
    if let Some(tick) = step.advance_clock_to {
        let s = choose|s: int|
            {
                &&& 0 <= s < successes.len()
                &&& (#[trigger] successes[s]).1.clock_tag is Some
                &&& successes[s].1.clock_tag->0.peer_id == clock_tag.peer_id
                &&& successes[s].1.clock_tag->0.clock_id == clock_tag.clock_id
                &&& successes[s].1.clock_tag->0.clock_tick == tick
            };
        assert(replies@[at[s]] is Ok);
    }
}

/// If some replica failed and too few took the update, the client is told of the first failure,
/// as it is.
pub proof fn law_too_few_answers_hand_on_the_first_failure(
    rs: ReplicaSetView,
    update: Update,
    attempt: Attempt,
    replicas: ReplicaCount,
    clock_tag: ClockTag,
    replies: Vec<Reply>,
    step: UpdateStep,
)
    requires
        update.phase == (UpdatePhase::Dispatching { attempt, replicas, clock_tag }),
        rs.steps_to(update, UpdateEvent::Replied(replies), step),
        some_failed(replies@),
        !enough_took(rs, replies@, replicas),
    ensures
        exists|i: int|
            {
                &&& 0 <= i < replies@.len()
                &&& (#[trigger] replies@[i]) is Err
                &&& forall|j: int| 0 <= j < i ==> (#[trigger] replies@[j]) is Ok
                &&& step.action == UpdateAction::Finish(
                    Err(CollectionError::Replica((replies@[i]->Err_0).1)),
                )
            },
        step.update.phase is Finished,
{
    lemma_counts(rs, replies@, replicas);
    lemma_first_failure(replies@);
}

/// A client that waits is held up exactly if the update is accepted and some failure that is
/// acted upon may pass by itself, or is one of a replica that is being initialized. The wait is
/// for all replicas whose failures are acted upon where some replica has applied the update, and
/// for those whose failure may pass where none has; it lasts thirty seconds at most.
pub proof fn law_who_is_waited_for(
    rs: ReplicaSetView,
    update: Update,
    attempt: Attempt,
    replicas: ReplicaCount,
    clock_tag: ClockTag,
    replies: Vec<Reply>,
    step: UpdateStep,
)
    requires
        update.phase == (UpdatePhase::Dispatching { attempt, replicas, clock_tag }),
        rs.steps_to(update, UpdateEvent::Replied(replies), step),
    ensures
        step.action is AwaitDeactivation <==> {
            &&& update.request.wait
            &&& enough_took(rs, replies@, replicas)
            &&& some_failure_holds_up(rs, replies@, update.request.update_only_existing)
        },
        step.action matches UpdateAction::AwaitDeactivation { peer_ids, timeout } ==> {
            &&& timeout@ == (30u64, 0u32)
            &&& forall|i: int|
                0 <= i < replies@.len() && (#[trigger] replies@[i]) is Err && ((
                replies@[i]->Err_0).1.transient || some_answered(
                    replies@,
                    UpdateStatus::Completed,
                )) ==> peer_ids@.contains((replies@[i]->Err_0).0)
            &&& forall|k: int|
                0 <= k < peer_ids@.len() ==> exists|i: int|
                    {
                        &&& 0 <= i < replies@.len()
                        &&& (#[trigger] replies@[i]) is Err
                        &&& (replies@[i]->Err_0).0 == #[trigger] peer_ids@[k]
                        &&& (replies@[i]->Err_0).1.transient || some_answered(
                            replies@,
                            UpdateStatus::Completed,
                        )
                    }
            &&& step.update.phase matches UpdatePhase::Deactivating { attempt: same, accepted }
            &&& same == attempt
            &&& accepted.successes@ == taken(replies@)
            &&& tells_of_first_failure(replies@, accepted.failure_error@)
        },
{
    let only_existing = update.request.update_only_existing;
    let successes = successes_of(replies@);
    let failures = failures_of(replies@);
    let transient = |failure: (PeerId, ReplicaError)| failure.1.transient;
    let handled = rs.handled_failures(successes, failures, replicas, only_existing);
    lemma_counts(rs, replies@, replicas);
    lemma_split(replies@);
    lemma_statuses(replies@);
    let at = lemma_failure_places(replies@);
    if some_failed(replies@) {
        lemma_first_failure(replies@);
    } else {
        assert(failures.len() == 0);
        if rs.enough_successes(successes, replicas) {
            lemma_holds_up(rs, replies@, replicas, only_existing);
        } else {
            assert(handled.len() == 0);
        }
    }
    if rs.enough_successes(successes, replicas) {
        lemma_holds_up(rs, replies@, replicas, only_existing);
    }
    if let UpdateAction::AwaitDeactivation { peer_ids, timeout } = step.action {
        assert(peer_ids@ == handled.map_values(|failure: (PeerId, ReplicaError)| failure.0));
        assert forall|i: int|
            0 <= i < replies@.len() && (#[trigger] replies@[i]) is Err && ((
            replies@[i]->Err_0).1.transient || some_answered(
                replies@,
                UpdateStatus::Completed,
            )) implies peer_ids@.contains((replies@[i]->Err_0).0) by {
            let f = choose|f: int| 0 <= f < at.len() && at[f] == i;
            assert(failures[f] == replies@[i]->Err_0);
            if any_completed(successes) {
                assert(handled.contains(handled[f]));
            } else {
                failures.lemma_filter_contains(transient, f);
            }
            let k = choose|k: int| 0 <= k < handled.len() && handled[k] == failures[f];
            assert(peer_ids@[k] == failures[f].0);
        }
        assert forall|k: int| 0 <= k < peer_ids@.len() implies exists|i: int|
            {
                &&& 0 <= i < replies@.len()
                &&& (#[trigger] replies@[i]) is Err
                &&& (replies@[i]->Err_0).0 == #[trigger] peer_ids@[k]
                &&& (replies@[i]->Err_0).1.transient || some_answered(
                    replies@,
                    UpdateStatus::Completed,
                )
            } by {
            assert(handled.contains(handled[k]));
            if !any_completed(successes) {
                failures.lemma_filter_pred(transient, k);
                failures.lemma_filter_contains_rev(transient, handled[k]);
            }
            let f = choose|f: int| 0 <= f < failures.len() && failures[f] == handled[k];
            assert(replies@[at[f]] is Err);
        }
    }
}

/// The peers of the failures that count are those of the answers that are such failures.
proof fn lemma_peers_by_answer(replies: Seq<Reply>, all: bool)
    ensures
        (if all {
            failures_of(replies)
        } else {
            transient_failures(failures_of(replies))
        }).map_values(|failure: (PeerId, ReplicaError)| failure.0) == replies.filter(
            |reply: Reply| reply is Err && (all || (reply->Err_0).1.transient),
        ).map_values(|reply: Reply| (reply->Err_0).0),
    decreases replies.len(),
{
    reveal(Seq::filter);
    let counts = |reply: Reply| reply is Err && (all || (reply->Err_0).1.transient);
    let peer = |failure: (PeerId, ReplicaError)| failure.0;
    let peer_of = |reply: Reply| (reply->Err_0).0;
    let counted = if all {
        failures_of(replies)
    } else {
        transient_failures(failures_of(replies))
    };
    if replies.len() > 0 {
        let before = replies.drop_last();
        let earlier = if all {
            failures_of(before)
        } else {
            transient_failures(failures_of(before))
        };
        lemma_peers_by_answer(before, all);
        assert(earlier.map_values(peer) == before.filter(counts).map_values(peer_of));
        if let Err(failure) = replies.last() {
            assert(failures_of(replies).drop_last() =~= failures_of(before));
            assert(failures_of(replies).last() == failure);
            if counts(replies.last()) {
                assert(counted =~= earlier.push(failure));
                assert(replies.filter(counts) =~= before.filter(counts).push(replies.last()));
                assert(counted.map_values(peer) =~= earlier.map_values(peer).push(failure.0));
                assert(replies.filter(counts).map_values(peer_of) =~= before.filter(
                    counts,
                ).map_values(peer_of).push(failure.0));
            }
        }
    }
    assert(counted.map_values(peer) =~= replies.filter(counts).map_values(peer_of));
}

/// The replicas that are waited for are listed in the order of their failures, once for each
/// failure that counts.
pub proof fn law_wait_follows_the_failures(
    rs: ReplicaSetView,
    update: Update,
    attempt: Attempt,
    replicas: ReplicaCount,
    clock_tag: ClockTag,
    replies: Vec<Reply>,
    step: UpdateStep,
)
    requires
        update.phase == (UpdatePhase::Dispatching { attempt, replicas, clock_tag }),
        rs.steps_to(update, UpdateEvent::Replied(replies), step),
    ensures
        step.action matches UpdateAction::AwaitDeactivation { peer_ids, .. } ==> peer_ids@
            == replies@.filter(
            |reply: Reply|
                reply is Err && (some_answered(replies@, UpdateStatus::Completed) || (
                reply->Err_0).1.transient),
        ).map_values(|reply: Reply| (reply->Err_0).0),
{
    let all = some_answered(replies@, UpdateStatus::Completed);
    law_who_is_waited_for(rs, update, attempt, replicas, clock_tag, replies, step);
    lemma_counts(rs, replies@, replicas);
    lemma_statuses(replies@);
    lemma_peers_by_answer(replies@, all);
}

/// If an update is accepted, none of the replicas that took it rejected it because of its clock,
/// one of them is a trusted source of truth that the step does not deactivate, and nobody is
/// waited for, the client is told of success at once, whether or not others failed or are
/// deactivated. The result sums up the answers.
pub proof fn law_accepted_update_is_answered_with_success(
    rs: ReplicaSetView,
    update: Update,
    attempt: Attempt,
    replicas: ReplicaCount,
    clock_tag: ClockTag,
    replies: Vec<Reply>,
    step: UpdateStep,
)
    requires
        update.phase == (UpdatePhase::Dispatching { attempt, replicas, clock_tag }),
        rs.steps_to(update, UpdateEvent::Replied(replies), step),
        enough_took(rs, replies@, replicas) || !some_failed(replies@),
        !update.request.wait || !some_failure_holds_up(
            rs,
            replies@,
            update.request.update_only_existing,
        ),
        some_source_of_truth_took(rs, replies@, step),
        !some_answered(replies@, UpdateStatus::ClockRejected),
    ensures
        step.action matches UpdateAction::Finish(Ok(result)) && sums_up(result, taken(replies@)),
        step.update.phase is Finished,
{
    law_who_is_waited_for(rs, update, attempt, replicas, clock_tag, replies, step);
    lemma_counts(rs, replies@, replicas);
    lemma_split(replies@);
    lemma_statuses(replies@);
    lemma_backed(rs, replies@, step);
    if let UpdateAction::Finish(Ok(result)) = step.action {
        law_how_answers_are_summed_up(result, taken(replies@));
    }
}

/// If an update is accepted but none of the replicas that took it is a trusted source of truth
/// that the step leaves in place, and nobody is waited for, the client is told that consistency
/// is not guaranteed, even if some of them rejected it because of its clock.
pub proof fn law_update_without_source_of_truth_fails(
    rs: ReplicaSetView,
    update: Update,
    attempt: Attempt,
    replicas: ReplicaCount,
    clock_tag: ClockTag,
    replies: Vec<Reply>,
    step: UpdateStep,
)
    requires
        update.phase == (UpdatePhase::Dispatching { attempt, replicas, clock_tag }),
        rs.steps_to(update, UpdateEvent::Replied(replies), step),
        enough_took(rs, replies@, replicas) || !some_failed(replies@),
        !update.request.wait || !some_failure_holds_up(
            rs,
            replies@,
            update.request.update_only_existing,
        ),
        !some_source_of_truth_took(rs, replies@, step),
    ensures
        step.action matches UpdateAction::Finish(Err(CollectionError::ServiceError { error }))
            && exists|first: Seq<char>| #[trigger]
            tells_of_first_failure(replies@, first) && error@
                == "Failed to apply operation to at least one `Active` replica. Consistency of this update is not guaranteed. Please retry. "@
                + first,
        step.update.phase is Finished,
{
    law_who_is_waited_for(rs, update, attempt, replicas, clock_tag, replies, step);
    lemma_counts(rs, replies@, replicas);
    lemma_split(replies@);
    lemma_statuses(replies@);
    lemma_backed(rs, replies@, step);
    let first = first_failure_text(failures_of(replies@));
    if some_failed(replies@) {
        lemma_first_failure(replies@);
    }
    assert(tells_of_first_failure(replies@, first));
}

/// If an update is accepted, backed by a source of truth and nobody is waited for, but some of
/// the replicas that took it rejected it because of its clock, it is tried again with the same
/// clock. The third attempt is the last: then the client is told that all were rejected.
pub proof fn law_rejected_update_gets_three_attempts(
    rs: ReplicaSetView,
    update: Update,
    attempt: Attempt,
    replicas: ReplicaCount,
    clock_tag: ClockTag,
    replies: Vec<Reply>,
    step: UpdateStep,
)
    requires
        update.phase == (UpdatePhase::Dispatching { attempt, replicas, clock_tag }),
        rs.steps_to(update, UpdateEvent::Replied(replies), step),
        enough_took(rs, replies@, replicas) || !some_failed(replies@),
        !update.request.wait || !some_failure_holds_up(
            rs,
            replies@,
            update.request.update_only_existing,
        ),
        some_source_of_truth_took(rs, replies@, step),
        some_answered(replies@, UpdateStatus::ClockRejected),
    ensures
        attempt.number < 3 ==> {
            &&& step.action is ReadReplicas
            &&& step.update.phase matches UpdatePhase::ReadingReplicas { attempt: next }
            &&& next.number == attempt.number + 1
            &&& next.clock_id == attempt.clock_id
        },
        attempt.number >= 3 ==> {
            &&& step.update.phase is Finished
            &&& step.action matches UpdateAction::Finish(
                Err(CollectionError::ServiceError { error }),
            )
            &&& error@ == "Failed to apply operation "@ + update.request.operation@ + " after "@
                + decimal(3) + " attempts, all attempts were rejected"@
        },
{
    law_who_is_waited_for(rs, update, attempt, replicas, clock_tag, replies, step);
    lemma_counts(rs, replies@, replicas);
    lemma_split(replies@);
    lemma_statuses(replies@);
    lemma_backed(rs, replies@, step);
}

// The step that the end of a wait leads to

/// Some replica that took the update is a trusted source of truth by now.
pub open spec fn some_source_of_truth_among(
    rs: ReplicaSetView,
    answers: Seq<(PeerId, UpdateResult)>,
) -> bool {
    exists|i: int|
        0 <= i < answers.len() && rs.peers.dom().contains((#[trigger] answers[i]).0)
            && rs.state_rules.source_of_truth.has(rs.peers[answers[i].0])
            && !rs.locally_disabled.contains(answers[i].0)
}

/// After the wait for failed replicas to be deactivated, the client is told of success exactly if
/// the wait succeeded, some replica that took the update is a source of truth by then, and none
/// rejected it because of its clock. Otherwise it is told of the failed wait, of the time that
/// ran out or of the missing source of truth, or the update is tried again, in this order.
pub proof fn law_what_follows_on_the_wait(
    rs: ReplicaSetView,
    update: Update,
    attempt: Attempt,
    accepted: Accepted,
    awaited: Result<bool, ReplicaError>,
    step: UpdateStep,
)
    requires
        update.phase == (UpdatePhase::Deactivating { attempt, accepted }),
        rs.steps_to(update, UpdateEvent::DeactivationAwaited(awaited), step),
    ensures
        step.advance_clock_to is None,
        step.deactivations@.len() == 0,
        ({
            let answers = accepted.successes@;
            let backed = some_source_of_truth_among(rs, answers);
            let rejected = exists|i: int|
                0 <= i < answers.len() && (#[trigger] answers[i]).1.status
                    == UpdateStatus::ClockRejected;
            match awaited {
                Err(error) => step.action == UpdateAction::Finish(
                    Err(CollectionError::Replica(error)),
                ),
                Ok(false) => {
                    &&& step.action matches UpdateAction::Finish(
                        Err(CollectionError::ServiceError { error }),
                    )
                    &&& error@ == "Some replica of shard "@ + decimal(rs.shard_id as nat)
                        + " failed to apply operation and deactivation timed out after "@
                        + duration_debug(30, 0)
                        + ". Consistency of this update is not guaranteed. Please retry. "@
                        + accepted.failure_error@
                },
                Ok(true) => {
                    &&& !backed ==> {
                        &&& step.action matches UpdateAction::Finish(
                            Err(CollectionError::ServiceError { error }),
                        )
                        &&& error@
                            == "Failed to apply operation to at least one `Active` replica. Consistency of this update is not guaranteed. Please retry. "@
                            + accepted.failure_error@
                    }
                    &&& backed && !rejected ==> {
                        &&& step.action matches UpdateAction::Finish(Ok(result))
                        &&& sums_up(result, answers)
                    }
                    &&& backed && rejected && attempt.number < 3 ==> {
                        &&& step.action is ReadReplicas
                        &&& step.update.phase matches UpdatePhase::ReadingReplicas {
                            attempt: next,
                        }
                        &&& next.number == attempt.number + 1
                        &&& next.clock_id == attempt.clock_id
                    }
                    &&& backed && rejected && attempt.number >= 3 ==> {
                        &&& step.action matches UpdateAction::Finish(
                            Err(CollectionError::ServiceError { error }),
                        )
                        &&& error@ == "Failed to apply operation "@ + update.request.operation@
                            + " after "@ + decimal(3) + " attempts, all attempts were rejected"@
                    }
                },
            }
        }),
{
    let answers = accepted.successes@;
    if rs.any_source_of_truth(answers) {
        let i = choose|i: int|
            0 <= i < answers.len() && rs.peer_can_be_source_of_truth((#[trigger] answers[i]).0);
        assert(rs.peers.dom().contains(answers[i].0));
    }
    if some_source_of_truth_among(rs, answers) {
        let i = choose|i: int|
            0 <= i < answers.len() && rs.peers.dom().contains((#[trigger] answers[i]).0)
                && rs.state_rules.source_of_truth.has(rs.peers[answers[i].0])
                && !rs.locally_disabled.contains(answers[i].0);
        assert(rs.peer_can_be_source_of_truth(answers[i].0));
    }
    law_one_answer_is_enough(answers);
    if let UpdateAction::Finish(Ok(result)) = step.action {
        law_how_answers_are_summed_up(result, answers);
    }
}

} // verus!
