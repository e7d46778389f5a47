//! How replica states are classed for updates.

use vstd::prelude::*;
use crate::types::ReplicaState;

verus! {

/// A set of replica states, with one mark for each state.
#[derive(Clone, Copy, Debug, PartialEq, Eq, Structural)]
pub struct StateSet {
    pub active: bool,
    pub dead: bool,
    pub partial: bool,
    pub initializing: bool,
    pub listener: bool,
    pub partial_snapshot: bool,
    pub recovery: bool,
    pub resharding: bool,
    pub resharding_scale_down: bool,
    pub active_read: bool,
    pub manual_recovery: bool,
}

impl StateSet {
    /// Whether the state is marked.
    pub open spec fn has(self, state: ReplicaState) -> bool {
        match state {
            ReplicaState::Active => self.active,
            ReplicaState::Dead => self.dead,
            ReplicaState::Partial => self.partial,
            ReplicaState::Initializing => self.initializing,
            ReplicaState::Listener => self.listener,
            ReplicaState::PartialSnapshot => self.partial_snapshot,
            ReplicaState::Recovery => self.recovery,
            ReplicaState::Resharding => self.resharding,
            ReplicaState::ReshardingScaleDown => self.resharding_scale_down,
            ReplicaState::ActiveRead => self.active_read,
            ReplicaState::ManualRecovery => self.manual_recovery,
        }
    }

    /// The set that holds no state.
    pub fn none() -> (set: StateSet)
        ensures
            forall|state: ReplicaState| !#[trigger] set.has(state),
    {
        StateSet {
            active: false,
            dead: false,
            partial: false,
            initializing: false,
            listener: false,
            partial_snapshot: false,
            recovery: false,
            resharding: false,
            resharding_scale_down: false,
            active_read: false,
            manual_recovery: false,
        }
    }

    /// Whether the state is marked.
    pub fn contains(&self, state: ReplicaState) -> (marked: bool)
        ensures
            marked == self.has(state),
    {
        match state {
            ReplicaState::Active => self.active,
            ReplicaState::Dead => self.dead,
            ReplicaState::Partial => self.partial,
            ReplicaState::Initializing => self.initializing,
            ReplicaState::Listener => self.listener,
            ReplicaState::PartialSnapshot => self.partial_snapshot,
            ReplicaState::Recovery => self.recovery,
            ReplicaState::Resharding => self.resharding,
            ReplicaState::ReshardingScaleDown => self.resharding_scale_down,
            ReplicaState::ActiveRead => self.active_read,
            ReplicaState::ManualRecovery => self.manual_recovery,
        }
    }
}

/// Which replica states count as what: the three questions that updates ask of a state.
#[derive(Clone, Copy, Debug, PartialEq, Eq, Structural)]
pub struct StateRules {
    /// States in which a replica is sent updates; a dead one is sent none in any case
    pub updatable: StateSet,
    /// States in which a replica holds everything that was acknowledged
    pub source_of_truth: StateSet,
    /// States in which a replica is still being filled by a transfer
    pub partial_or_recovery: StateSet,
}

} // verus!
