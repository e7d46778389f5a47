//! Updates that a peer applies to its own replica, without forwarding them.

use vstd::prelude::*;
use crate::duration::Duration;
use crate::replica_set::{ReplicaSetView, ShardReplicaSet};
use crate::types::{ClockTag, ReplicaError, ReplicaState};

verus! {

/// How an update is applied to the local replica.
#[derive(Clone, Copy, Debug, PartialEq, Eq, Structural)]
pub struct LocalUpdate {
    /// Whether the update first has to pass the write rate limiter
    pub check_rate_limit: bool,
    /// Whether hardware usage is measured by a measurement that is thrown away
    pub disposable_hw_measurement: bool,
    /// Whether to wait until the update is applied
    pub wait: bool,
    /// How long to wait at most
    pub timeout: Option<Duration>,
}

impl LocalUpdate {
    /// What the answer of the write rate limiter makes of the update: a refusal takes its place
    /// if the update has to pass the limiter, and nothing changes otherwise.
    pub open spec fn admitted(self, checked: Result<(), ReplicaError>) -> Result<
        LocalUpdate,
        ReplicaError,
    > {
        match checked {
            Err(error) if self.check_rate_limit => Err(error),
            _ => Ok(self),
        }
    }
}

/// What to do after asking for a clock.
#[derive(Debug, PartialEq, Eq)]
pub enum ClockStep<C> {
    /// The clock is ours
    Acquired(C),
    /// All clocks are taken: let others run, then ask again
    Yield,
}

/// What a request to the local replica comes to.
pub open spec fn spec_local_outcome<T>(outcome: Option<Result<T, ReplicaError>>) -> Result<
    Option<T>,
    ReplicaError,
> {
    match outcome {
        None => Ok(None),
        Some(Ok(answer)) => Ok(Some(answer)),
        Some(Err(error)) => Err(error),
    }
}

/// What an update costs at the write rate limiter.
pub open spec fn write_cost(estimate: Result<usize, ReplicaError>) -> usize {
    match estimate {
        Ok(affected) => if affected > 1 {
            affected
        } else {
            1
        },
        Err(_) => 1,
    }
}

/// What follows on asking for a free clock.
pub open spec fn clock_step<C>(offered: Option<C>) -> ClockStep<C> {
    match offered {
        Some(clock) => ClockStep::Acquired(clock),
        None => ClockStep::Yield,
    }
}

impl ReplicaSetView {
    /// Whether the local replica takes an update that was sent to it directly.
    ///
    /// A forced update is taken in every state. Otherwise a dead replica, or one that waits for
    /// an operator, takes none, and a replica in recovery only those whose clock tag says so.
    pub open spec fn takes_local_update(self, clock_tag: Option<ClockTag>, force: bool) -> bool {
        &&& self.has_local
        &&& self.peers.contains_key(self.this_peer_id)
        &&& force || match self.peers[self.this_peer_id] {
            ReplicaState::Dead | ReplicaState::ManualRecovery => false,
            ReplicaState::PartialSnapshot | ReplicaState::Recovery => clock_tag is Some
                && clock_tag->0.force,
            _ => true,
        }
    }

    /// How the local replica applies an update that was sent to it directly. A forced update is
    /// applied as it is. Otherwise an active replica limits the rate of updates, and a listener
    /// is not waited for.
    pub open spec fn local_update(
        self,
        clock_tag: Option<ClockTag>,
        wait: bool,
        timeout: Option<Duration>,
        hw_measurement_is_disposable: bool,
        force: bool,
    ) -> Option<LocalUpdate> {
        let state = self.peers[self.this_peer_id];
        let waited_for = !(state is Listener) || force;
        if self.takes_local_update(clock_tag, force) {
            Some(
                LocalUpdate {
                    check_rate_limit: state is Active && !force,
                    disposable_hw_measurement: state.is_resharding()
                        && !hw_measurement_is_disposable,
                    wait: wait && waited_for,
                    timeout: if waited_for {
                        timeout
                    } else {
                        None
                    },
                },
            )
        } else {
            None
        }
    }
}

impl ShardReplicaSet {
    /// Decides whether and how an update is applied to the local replica, without forwarding it
    /// to remote ones.
    ///
    /// If `force` is true, the update is applied unconditionally, no matter the replica state: no
    /// rate limiter is asked either. The measurement is only exchanged for a disposable one where
    /// it is not disposable already.
    pub fn update_local(
        &self,
        clock_tag: Option<ClockTag>,
        wait: bool,
        timeout: Option<Duration>,
        hw_measurement_is_disposable: bool,
        force: bool,
    ) -> (update: Option<LocalUpdate>)
        ensures
            update == self@.local_update(
                clock_tag,
                wait,
                timeout,
                hw_measurement_is_disposable,
                force,
            ),
    {
        if !self.has_local {
            return None;
        }
        let state = match self.peer_state(self.this_peer_id()) {
            Some(state) => state,
            None => {
                return None;
            },
        };

        // Don't measure hardware when resharding
        let disposable_hw_measurement = state.is_resharding() && !hw_measurement_is_disposable;
        let applied = LocalUpdate {
            check_rate_limit: false,
            disposable_hw_measurement,
            wait,
            timeout,
        };
        match state {
            // Force apply the operation no matter the state
            _ if force => Some(applied),
            // Rate limit update operations on an active replica
            ReplicaState::Active => Some(LocalUpdate { check_rate_limit: true, ..applied }),
            ReplicaState::Partial
            | ReplicaState::Initializing
            | ReplicaState::Resharding
            | ReplicaState::ReshardingScaleDown
            | ReplicaState::ActiveRead => Some(applied),
            ReplicaState::Listener => Some(LocalUpdate { wait: false, timeout: None, ..applied }),
            ReplicaState::PartialSnapshot | ReplicaState::Recovery => match clock_tag {
                Some(tag) if tag.force => Some(applied),
                _ => None,
            },
            ReplicaState::Dead | ReplicaState::ManualRecovery => None,
        }
    }

    /// Decides whether an update goes on to the local replica, by the answer of the write rate
    /// limiter. An update that does not have to pass the limiter goes on whatever it answers.
    pub fn admit_local_update(update: LocalUpdate, checked: Result<(), ReplicaError>) -> (admitted:
        Result<LocalUpdate, ReplicaError>)
        ensures
            admitted == update.admitted(checked),
    {
        match checked {
            Err(error) if update.check_rate_limit => Err(error),
            _ => Ok(update),
        }
    }

    /// What a request to the local replica comes to: nothing if it was not sent, else the answer
    /// or the error that it ended with.
    pub fn local_outcome<T>(outcome: Option<Result<T, ReplicaError>>) -> (result: Result<
        Option<T>,
        ReplicaError,
    >)
        ensures
            result == spec_local_outcome(outcome),
    {
        match outcome {
            None => Ok(None),
            Some(Ok(answer)) => Ok(Some(answer)),
            Some(Err(error)) => Err(error),
        }
    }

    /// What an update costs at the write rate limiter, by the estimate of the points that it
    /// affects. It costs at least one, also where the estimate failed.
    pub fn check_operation_write_rate_limiter(estimate: &Result<usize, ReplicaError>) -> (cost:
        usize)
        ensures
            cost == write_cost(*estimate),
    {
        match estimate {
            Ok(affected) => if *affected > 1 {
                *affected
            } else {
                1
            },
            Err(_) => 1,
        }
    }

    /// Decides what follows on asking for a free clock.
    pub fn get_clock<C>(offered: Option<C>) -> (step: ClockStep<C>)
        ensures
            step == clock_step(offered),
    {
        match offered {
            Some(clock) => ClockStep::Acquired(clock),
            // Give others the chance to hand their clock back
            None => ClockStep::Yield,
        }
    }

    /// Whether a plunger operation is sent: to the local replica, if there is one.
    pub fn plunge_local_async(&self) -> (plunge: bool)
        ensures
            plunge == self@.has_local,
    {
        self.has_local
    }
}

} // verus!
