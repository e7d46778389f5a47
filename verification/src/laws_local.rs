//! What holds of updates that are sent to the local replica directly.

use vstd::prelude::*;
use crate::duration::Duration;
use crate::local::{
    clock_step, spec_local_outcome, write_cost, ClockStep, LocalUpdate,
};
use crate::replica_set::ReplicaSetView;
use crate::types::{ClockTag, ReplicaError, ReplicaState};

verus! {

/// Without a local replica, or while its state is unknown, nothing is applied, forced or not.
pub proof fn law_unknown_local_replica_applies_nothing(
    rs: ReplicaSetView,
    clock_tag: Option<ClockTag>,
    wait: bool,
    timeout: Option<Duration>,
    disposable: bool,
    force: bool,
)
    requires
        !rs.has_local || !rs.peers.dom().contains(rs.this_peer_id),
    ensures
        rs.local_update(clock_tag, wait, timeout, disposable, force) is None,
{
}

/// A known local replica applies every update that is forced. It applies an unforced one unless
/// it is dead, waits for an operator, or is in recovery while the clock tag is not forced.
pub proof fn law_which_local_updates_are_applied(
    rs: ReplicaSetView,
    clock_tag: Option<ClockTag>,
    wait: bool,
    timeout: Option<Duration>,
    disposable: bool,
    force: bool,
)
    requires
        rs.has_local,
        rs.peers.dom().contains(rs.this_peer_id),
    ensures
        ({
            let state = rs.peers[rs.this_peer_id];
            let tag_is_forced = clock_tag matches Some(tag) && tag.force;
            let out_of_use = state == ReplicaState::Dead || state == ReplicaState::ManualRecovery;
            let recovering = state == ReplicaState::Recovery || state
                == ReplicaState::PartialSnapshot;
            let applied = rs.local_update(clock_tag, wait, timeout, disposable, force) is Some;
            &&& force ==> applied
            &&& !force && out_of_use ==> !applied
            &&& !force && recovering ==> applied == tag_is_forced
            &&& !out_of_use && !recovering ==> applied
        }),
{
}

/// An update is applied with exactly the caller's wait and timeout, unless it is an unforced
/// update of a listener, which is not waited for at all. A caller that does not want to wait
/// never waits.
pub proof fn law_local_update_is_waited_for_as_asked(
    rs: ReplicaSetView,
    clock_tag: Option<ClockTag>,
    wait: bool,
    timeout: Option<Duration>,
    disposable: bool,
    force: bool,
)
    ensures
        rs.local_update(clock_tag, wait, timeout, disposable, force) matches Some(update) ==> {
            let unforced_listener = rs.peers[rs.this_peer_id] == ReplicaState::Listener && !force;
            &&& !unforced_listener ==> update.wait == wait && update.timeout == timeout
            &&& unforced_listener ==> !update.wait && update.timeout is None
            &&& !wait ==> !update.wait
        },
{
}

/// The rate limiter is asked exactly for unforced updates of an active replica.
pub proof fn law_when_the_local_rate_limiter_is_asked(
    rs: ReplicaSetView,
    clock_tag: Option<ClockTag>,
    wait: bool,
    timeout: Option<Duration>,
    disposable: bool,
    force: bool,
)
    ensures
        rs.local_update(clock_tag, wait, timeout, disposable, force) matches Some(update) ==> (
        update.check_rate_limit <==> rs.peers[rs.this_peer_id] == ReplicaState::Active && !force),
{
}

/// Hardware usage of a resharding replica is never accounted for: its measurement is disposable
/// already, or is exchanged. That of any other replica is kept.
pub proof fn law_resharding_is_not_measured(
    rs: ReplicaSetView,
    clock_tag: Option<ClockTag>,
    wait: bool,
    timeout: Option<Duration>,
    disposable: bool,
    force: bool,
)
    ensures
        rs.local_update(clock_tag, wait, timeout, disposable, force) matches Some(update) ==> {
            let state = rs.peers[rs.this_peer_id];
            let resharding = state == ReplicaState::Resharding || state
                == ReplicaState::ReshardingScaleDown;
            &&& resharding ==> (disposable || update.disposable_hw_measurement)
            &&& !resharding ==> !update.disposable_hw_measurement
            &&& disposable ==> !update.disposable_hw_measurement
        },
{
}

/// How an update is applied depends on nothing but the local replica, its state and what the
/// caller asked for.
pub proof fn law_local_update_depends_on_the_local_replica_alone(
    one: ReplicaSetView,
    other: ReplicaSetView,
    clock_tag: Option<ClockTag>,
    wait: bool,
    timeout: Option<Duration>,
    disposable: bool,
    force: bool,
)
    requires
        one.has_local == other.has_local,
        one.peers.dom().contains(one.this_peer_id) == other.peers.dom().contains(
            other.this_peer_id,
        ),
        one.peers[one.this_peer_id] == other.peers[other.this_peer_id],
    ensures
        one.local_update(clock_tag, wait, timeout, disposable, force) == other.local_update(
            clock_tag,
            wait,
            timeout,
            disposable,
            force,
        ),
{
}

/// An update that does not have to pass the rate limiter, or that the limiter lets pass, goes on
/// unchanged; a refusal of one that has to pass it takes its place.
pub proof fn law_what_the_rate_limiter_changes(
    update: LocalUpdate,
    checked: Result<(), ReplicaError>,
)
    ensures
        update.admitted(checked) is Err <==> update.check_rate_limit && checked is Err,
        update.admitted(checked) matches Ok(admitted) ==> admitted == update,
        update.admitted(checked) matches Err(refusal) ==> checked == Err::<(), ReplicaError>(
            refusal,
        ),
{
}

/// A request to the local replica comes to an error exactly if it was sent and failed, and then to
/// that error; to an answer exactly if it was sent and answered, and then to that answer.
pub proof fn law_outcome_of_a_local_request<T>(outcome: Option<Result<T, ReplicaError>>)
    ensures
        spec_local_outcome(outcome) matches Err(error) ==> outcome == Some(
            Err::<T, ReplicaError>(error),
        ),
        spec_local_outcome(outcome) matches Ok(Some(answer)) ==> outcome == Some(
            Ok::<T, ReplicaError>(answer),
        ),
        spec_local_outcome(outcome) matches Ok(None) ==> outcome is None,
{
}

/// An update costs at least one, and at least the points that it is estimated to affect, but no
/// more than it has to. Without an estimate, it costs one.
pub proof fn law_cost_of_a_write(
    estimate: Result<usize, ReplicaError>,
    other: Result<usize, ReplicaError>,
)
    ensures
        write_cost(estimate) >= 1,
        estimate matches Ok(affected) ==> {
            &&& write_cost(estimate) >= affected
            &&& write_cost(estimate) > 1 ==> write_cost(estimate) == affected
        },
        estimate is Err ==> write_cost(estimate) == 1,
        estimate is Ok && other is Ok && estimate->Ok_0 <= other->Ok_0 ==> write_cost(estimate)
            <= write_cost(other),
{
}

/// A clock that is offered is taken, and that one; without an offer, nothing is taken.
pub proof fn law_offered_clock_is_taken<C>(offered: Option<C>)
    ensures
        offered is Some <==> clock_step(offered) is Acquired,
        clock_step(offered) matches ClockStep::Acquired(clock) ==> offered == Some(clock),
{
}

} // verus!
