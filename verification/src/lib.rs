//! Decisions of a replicated shard about updates: which replica leads a write, which replicas
//! receive it, what their answers mean, which replicas have to be deactivated, and when a
//! rejected write is tried again.
//!
//! Everything here is computed from plain values. Talking to replicas, waiting, locking and
//! keeping logical clocks is left to the caller, who performs the actions that an update asks
//! for and hands back what came of them.

pub mod duration;
pub mod text;
pub mod types;
pub mod rules;
pub mod replica_set;
pub mod failures;
pub mod merge;
pub mod local;
pub mod messages;
pub mod attempt;
pub mod update;
pub mod laws;
pub mod runs;
pub mod laws_basics;
pub mod laws_local;
pub mod laws_failures;
pub mod laws_replies;
pub mod laws_deactivations;
pub mod laws_steps;
