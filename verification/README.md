# shard_replica_set

The decisions behind updates of a replicated shard, written in Rust and verified with Verus.

A shard has replicas on several peers. An update names how strictly it is ordered; that selects
the peer that leads it. The leader tags the operation with a tick of a logical clock, sends it to
every replica that can be updated, and judges the answers: whether enough replicas took it, which
failed replicas have to be deactivated, whether the update has to be tried again with a newer
tick, and what the client is told.

## Layout

- `src/types.rs`, `src/rules.rs`, `src/duration.rs`: the vocabulary
- `src/replica_set.rs`: what a peer knows of the replicas, and who leads
- `src/local.rs`: updates sent to the local replica directly
- `src/failures.rs`: what failures of replicas lead to
- `src/merge.rs`: what the answers of several replicas add up to
- `src/attempt.rs`: one attempt to update all replicas
- `src/update.rs`: an update from routing to answer, as a machine that is driven from outside
- `src/text.rs`, `src/messages.rs`: the messages of errors
- `src/laws.rs`, `src/runs.rs`: what holds of updates as a whole, with proofs
- `app/`: an async driver that holds locks, keeps clocks and talks to replicas

Two results are taken on trust: how `itertools` splits a list of results, and how the standard
library prints a duration.
