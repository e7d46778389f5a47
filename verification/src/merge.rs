//! What the answers of several replicas add up to.

use itertools::Itertools;

use vstd::prelude::*;
use crate::replica_set::ShardReplicaSet;
use crate::types::{ClockTag, PeerId, ReplicaError, UpdateResult, UpdateStatus};

verus! {

/// Answer of one replica to an update.
pub type Reply = Result<(PeerId, UpdateResult), (PeerId, ReplicaError)>;

/// The answers of the replicas that took the update, in order.
pub open spec fn successes_of(replies: Seq<Reply>) -> Seq<(PeerId, UpdateResult)> {
    replies.filter_map(
        |reply: Reply|
            match reply {
                Ok(success) => Some(success),
                Err(_) => None,
            },
    )
}

/// The answers of the replicas that failed to take the update, in order.
pub open spec fn failures_of(replies: Seq<Reply>) -> Seq<(PeerId, ReplicaError)> {
    replies.filter_map(
        |reply: Reply|
            match reply {
                Ok(_) => None,
                Err(failure) => Some(failure),
            },
    )
}

/// `Itertools::partition_result` on the answers of replicas: the values of all `Ok` items in
/// one list and those of all `Err` items in another, both in the order of the items.
#[verifier::external_body]
pub(crate) fn partition_replies(replies: Vec<Reply>) -> (parts: (
    Vec<(PeerId, UpdateResult)>,
    Vec<(PeerId, ReplicaError)>,
))
    ensures
        parts.0@ == successes_of(replies@),
        parts.1@ == failures_of(replies@),
{
    replies.into_iter().partition_result()
}

/// Whether any replica has applied the update in full.
pub open spec fn any_completed(successes: Seq<(PeerId, UpdateResult)>) -> bool {
    exists|i: int| 0 <= i < successes.len() && (#[trigger] successes[i]).1.status is Completed
}

/// Whether any replica has refused the update because of its clock.
pub open spec fn any_clock_rejected(successes: Seq<(PeerId, UpdateResult)>) -> bool {
    exists|i: int| 0 <= i < successes.len() && (#[trigger] successes[i]).1.status is ClockRejected
}

/// Whether `status` occurs among the answers and none of them outranks it.
pub open spec fn is_top_status(
    successes: Seq<(PeerId, UpdateResult)>,
    status: UpdateStatus,
) -> bool {
    &&& exists|i: int| 0 <= i < successes.len() && (#[trigger] successes[i]).1.status == status
    &&& forall|i: int|
        0 <= i < successes.len() ==> (#[trigger] successes[i]).1.status.priority()
            <= status.priority()
}

/// Whether the answer at `k` is from the highest peer; of several, the last one.
pub open spec fn is_from_highest_peer(successes: Seq<(PeerId, UpdateResult)>, k: int) -> bool {
    &&& 0 <= k < successes.len()
    &&& forall|i: int| 0 <= i < successes.len() ==> (#[trigger] successes[i]).0 <= successes[k].0
    &&& forall|i: int| k < i < successes.len() ==> (#[trigger] successes[i]).0 < successes[k].0
}

/// Whether `merged` sums up the answers: the answer of the highest peer, with the status that
/// outranks all others.
pub open spec fn is_merge_of(
    merged: UpdateResult,
    successes: Seq<(PeerId, UpdateResult)>,
) -> bool {
    &&& is_top_status(successes, merged.status)
    &&& exists|k: int|
        is_from_highest_peer(successes, k) && merged == (UpdateResult {
            status: merged.status,
            ..(#[trigger] successes[k]).1
        })
}

/// The tick that an answer echoes of the clock of `clock_tag`, if it echoes one.
pub open spec fn echoed_tick(success: (PeerId, UpdateResult), clock_tag: ClockTag) -> Option<u64> {
    match success.1.clock_tag {
        Some(echo) => if echo.peer_id == clock_tag.peer_id && echo.clock_id == clock_tag.clock_id {
            Some(echo.clock_tick)
        } else {
            None
        },
        None => None,
    }
}

/// Whether `newest` is the newest tick that the answers echo of the clock of `clock_tag`, or
/// nothing if they echo none.
pub open spec fn is_newest_echo(
    successes: Seq<(PeerId, UpdateResult)>,
    clock_tag: ClockTag,
    newest: Option<u64>,
) -> bool {
    match newest {
        Some(tick) => {
            &&& exists|i: int|
                0 <= i < successes.len() && echoed_tick(#[trigger] successes[i], clock_tag)
                    == Some(tick)
            &&& forall|i: int|
                0 <= i < successes.len() ==> match echoed_tick(#[trigger] successes[i], clock_tag) {
                    Some(echoed) => echoed <= tick,
                    None => true,
                }
        },
        None => forall|i: int|
            0 <= i < successes.len() ==> echoed_tick(#[trigger] successes[i], clock_tag) is None,
    }
}

/// Whether any replica has applied the update in full.
pub fn has_completed(successes: &[(PeerId, UpdateResult)]) -> (completed: bool)
    ensures
        completed == any_completed(successes@),
{
    let mut i: usize = 0;
    while i < successes.len()
        invariant
            i <= successes.len(),
            forall|j: int| 0 <= j < i ==> !((#[trigger] successes@[j]).1.status is Completed),
        decreases successes.len() - i,
    {
        match successes[i].1.status {
            UpdateStatus::Completed => {
                return true;
            },
            UpdateStatus::Acknowledged
            | UpdateStatus::ClockRejected
            | UpdateStatus::WaitTimeout => {},
        }
        i += 1;
    }
    false
}

/// Whether any replica has refused the update because of its clock.
pub fn has_clock_rejected(successes: &[(PeerId, UpdateResult)]) -> (rejected: bool)
    ensures
        rejected == any_clock_rejected(successes@),
{
    let mut i: usize = 0;
    while i < successes.len()
        invariant
            i <= successes.len(),
            forall|j: int| 0 <= j < i ==> !((#[trigger] successes@[j]).1.status is ClockRejected),
        decreases successes.len() - i,
    {
        if matches!(successes[i].1.status, UpdateStatus::ClockRejected) {
            return true;
        }
        i += 1;
    }
    false
}

/// The newest tick that the answers echo of the clock of `clock_tag`. Echoes of another clock
/// are passed over.
pub fn newest_echoed_tick(
    successes: &[(PeerId, UpdateResult)],
    clock_tag: ClockTag,
) -> (newest: Option<u64>)
    ensures
        is_newest_echo(successes@, clock_tag, newest),
{
    let mut newest: Option<u64> = None;
    let mut i: usize = 0;
    while i < successes.len()
        invariant
            i <= successes.len(),
            is_newest_echo(successes@.take(i as int), clock_tag, newest),
        decreases successes.len() - i,
    {
        let ghost before = successes@.take(i as int);
        let ghost now = successes@.take(i + 1);
        assert(now =~= before.push(successes@[i as int]));
        assert(now[i as int] == successes@[i as int]);
        assert(forall|j: int| 0 <= j < i ==> now[j] == #[trigger] before[j]);
        match successes[i].1.clock_tag {
            Some(echo) => {
                if echo.peer_id == clock_tag.peer_id && echo.clock_id == clock_tag.clock_id {
                    match newest {
                        Some(tick) if tick > echo.clock_tick => {},
                        _ => {
                            newest = Some(echo.clock_tick);
                        },
                    }
                }
            },
            None => {},
        }
        i += 1;
    }
    assert(successes@.take(successes@.len() as int) =~= successes@);
    newest
}

impl ShardReplicaSet {
    /// Sums up the answers of the replicas that took an update.
    ///
    /// The answer of the highest peer is picked, which makes the outcome deterministic. Its
    /// status is replaced by the one that outranks all others.
    pub fn merge_successful_update_results(successes: &[(PeerId, UpdateResult)]) -> (merged:
        UpdateResult)
        requires
            successes@.len() > 0,
        ensures
            is_merge_of(merged, successes@),
    {
        let mut status = successes[0].1.status;
        let mut highest: usize = 0;
        let mut i: usize = 1;
        let ghost mut at: int = 0;
        while i < successes.len()
            invariant
                0 < i <= successes.len(),
                highest < i,
                0 <= at < i,
                successes@[at].1.status == status,
                forall|j: int|
                    0 <= j < i ==> (#[trigger] successes@[j]).1.status.priority()
                        <= status.priority(),
                forall|j: int|
                    0 <= j < i ==> (#[trigger] successes@[j]).0 <= successes@[highest as int].0,
                forall|j: int|
                    highest < j < i ==> (#[trigger] successes@[j]).0 < successes@[highest as int].0,
            decreases successes.len() - i,
        {
            if successes[i].1.status.priority() >= status.priority() {
                status = successes[i].1.status;
                proof {
                    at = i as int;
                }
            }
            if successes[i].0 >= successes[highest].0 {
                highest = i;
            }
            i += 1;
        }
        let mut merged = successes[highest].1;
        merged.status = status;
        assert(is_from_highest_peer(successes@, highest as int));
        assert(merged == (UpdateResult { status: merged.status, ..successes@[highest as int].1 }));
        merged
    }
}

} // verus!
