//! The two workloads, as the work of one worker and as a whole run carried
//! out by one thread, worker after worker.

use vstd::prelude::*;
use crate::handle::{MapHandle, NO_PREALLOCATION};
use crate::model::{identity_upto, lemma_identity_len, lemma_overlay_is_idempotent, private_maps, worker_pass, Contents};
use crate::shards::ShardAmount;
use crate::shared::SharedMap;
use crate::strategy::{MapStrategy, RunConfig, Workload};

verus! {

/// What the jointly owned map holds once every worker of a run has finished:
/// the identity on the key range, or nothing where no worker ran.
pub open spec fn shared_result(config: RunConfig) -> Contents {
    if config.n_workers >= 1 {
        identity_upto(config.n_rounds as nat)
    } else {
        Contents::empty()
    }
}

/// One round of the private-map workload: a brand-new map of the strategy that
/// holds the single pair `(round, round)`. The map is the caller's alone, and
/// nothing of any earlier round is in it.
pub fn private_round(strategy: MapStrategy, shards: ShardAmount, round: usize) -> (handle:
    MapHandle)
    ensures
        handle@ == Contents::empty().insert(round, round),
        handle.kind() == strategy,
        handle.starting_capacity() == NO_PREALLOCATION,
        handle.shard_amount() == MapHandle::shards_read(strategy, shards),
        handle.key_hasher() == strategy.key_hasher(),
{
    let mut handle = MapHandle::create(strategy, shards);
    handle.insert(round, round);
    handle
}

/// The work of one worker under the private-map workload: `n_rounds` rounds,
/// each of which builds its own map and drops it. Returns the number of rounds
/// it has run, and what the map of each round held when it was dropped.
pub fn private_worker(strategy: MapStrategy, shards: ShardAmount, n_rounds: usize) -> (done: PrivateRun)
    ensures
        done.rounds == n_rounds && done.maps@ == private_maps(n_rounds as nat),
{
    let mut round: usize = 0;
    let ghost mut dropped: Seq<Contents> = Seq::empty();
    while round < n_rounds
        invariant
            round <= n_rounds,
            dropped =~= private_maps(round as nat),
        decreases n_rounds - round,
    {
        let discarded = private_round(strategy, shards, round);
        proof { dropped = dropped.push(discarded@); }
        round = round + 1;
    }
    PrivateRun { rounds: round, maps: Ghost(dropped) }
}

/// One worker's work on the shared map: it hands over `(i, i)` for `i` ascending below `n_rounds`.
pub fn shared_worker(map: &mut SharedMap, n_rounds: usize) -> (inserts: usize)
    ensures
        inserts == n_rounds,
        final(map).written() == old(map).written() + worker_pass(n_rounds as nat),
        final(map).same_map(*old(map)),
        final(map).spare_owners() == old(map).spare_owners(),
{
    let mut i: usize = 0;
    while i < n_rounds
        invariant
            i <= n_rounds,
            map.written() =~= old(map).written() + worker_pass(i as nat),
            map.same_map(*old(map)),
            map.spare_owners() == old(map).spare_owners(),
        decreases n_rounds - i,
    {
        map.insert(i, i);
        i = i + 1;
    }
    i
}

/// Runs a whole workload on the calling thread, one worker after the other.
/// The shared-map workload hands back its map, which holds the identity on the
/// key range as soon as one worker has run; the private-map workload leaves no
/// map behind.
pub fn run_in_turn(
    workload: Workload,
    strategy: MapStrategy,
    shards: ShardAmount,
    config: RunConfig,
) -> (left: Option<MapHandle>)
    ensures
        match workload {
            Workload::PerThreadPrivateMap => left.is_none(),
            Workload::SharedContendedMap => left matches Some(handle) && handle@ == shared_result(
                config,
            ) && handle.kind() == strategy && handle.starting_capacity() == NO_PREALLOCATION
                && handle.shard_amount() == MapHandle::shards_read(strategy, shards)
                && handle@.len() == (if config.n_workers >= 1 {
                config.n_rounds as nat
            } else {
                0
            }),
        },
{
    match workload {
        Workload::PerThreadPrivateMap => {
            let mut worker: usize = 0;
            while worker < config.n_workers
                invariant
                    worker <= config.n_workers,
                decreases config.n_workers - worker,
            {
                let _rounds = private_worker(strategy, shards, config.n_rounds);
                worker = worker + 1;
            }
            None
        },
        Workload::SharedContendedMap => {
            let mut handle = MapHandle::create(strategy, shards);
            let mut worker: usize = 0;
            while worker < config.n_workers
                invariant
                    worker <= config.n_workers,
                    handle.kind() == strategy,
                    handle.starting_capacity() == NO_PREALLOCATION,
                    handle.shard_amount() == MapHandle::shards_read(strategy, shards),
                    handle@ == (if worker >= 1 {
                        identity_upto(config.n_rounds as nat)
                    } else {
                        Contents::empty()
                    }),
                decreases config.n_workers - worker,
            {
                handle.fill(config.n_rounds);
                proof {
                    lemma_overlay_is_idempotent(Contents::empty(), config.n_rounds as nat);
                }
                worker = worker + 1;
            }
            proof {
                lemma_identity_len(config.n_rounds as nat);
            }
            Some(handle)
        },
    }
}

/// What a private-map worker has to show for its rounds.
pub struct PrivateRun {
    /// The number of rounds that the worker has run.
    pub rounds: usize,
    /// What the map of each round held when it was dropped, round by round.
    pub maps: Ghost<Seq<Contents>>,
}

} // verus!
