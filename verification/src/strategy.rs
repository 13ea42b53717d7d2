//! The closed set of map strategies, the two workload shapes, and the
//! configuration of a run.

use vstd::prelude::*;

verus! {

/// How a map is protected against concurrent writers.
#[derive(Clone, Copy, Debug, PartialEq, Eq, Structural, Hash)]
pub enum MapStrategy {
    /// One hash map behind a single lock.
    ExclusiveLockMap,
    /// Keys hashed into independently locked shards.
    ShardedLockMap,
    /// One lock per bucket.
    FineGrainedLockMap,
    /// Lock-free inserts under an epoch guard.
    LockFreeMap,
}

/// What a map hashes its keys with.
#[derive(Clone, Copy, Debug, PartialEq, Eq, Structural, Hash)]
pub enum KeyHasher {
    /// The FNV hash, a fast hash that is the same in every run.
    Fnv,
    /// A hasher that the map seeds for itself; the strategy offers no other.
    SeededByMap,
}

/// How the workers of a run share maps.
#[derive(Clone, Copy, Debug, PartialEq, Eq, Structural, Hash)]
pub enum Workload {
    /// Every round of every worker builds a map of its own and drops it.
    PerThreadPrivateMap,
    /// All workers write the same key range into one jointly owned map.
    SharedContendedMap,
}

/// The size of a run. Zero rounds and zero workers are both valid: such a run
/// writes nothing.
#[derive(Clone, Copy, Debug, PartialEq, Eq, Structural, Hash)]
pub struct RunConfig {
    /// Rounds per worker; keys and values are drawn from `[0, n_rounds)`.
    pub n_rounds: usize,
    /// Number of workers.
    pub n_workers: usize,
}

impl RunConfig {
    /// A configuration of `n_workers` workers that run `n_rounds` rounds each.
    pub fn new(n_rounds: usize, n_workers: usize) -> (config: RunConfig)
        ensures
            config.n_rounds == n_rounds,
            config.n_workers == n_workers,
    {
        RunConfig { n_rounds, n_workers }
    }
}

impl MapStrategy {
    /// The name under which a strategy's timing is reported.
    pub open spec fn label(self) -> Seq<char> {
        match self {
            MapStrategy::ExclusiveLockMap => "std hashmap"@,
            MapStrategy::ShardedLockMap => "dashmap"@,
            MapStrategy::FineGrainedLockMap => "chashmap"@,
            MapStrategy::LockFreeMap => "flurry"@,
        }
    }

    /// The name under which a strategy's timing is reported.
    pub fn name(self) -> (name: &'static str)
        ensures
            name@ == self.label(),
    {
        match self {
            MapStrategy::ExclusiveLockMap => "std hashmap",
            MapStrategy::ShardedLockMap => "dashmap",
            MapStrategy::FineGrainedLockMap => "chashmap",
            MapStrategy::LockFreeMap => "flurry",
        }
    }

    /// The hasher of a strategy's maps: FNV wherever the strategy lets the
    /// hasher be chosen, which the fine-grained strategy does not.
    pub open spec fn key_hasher(self) -> KeyHasher {
        match self {
            MapStrategy::FineGrainedLockMap => KeyHasher::SeededByMap,
            _ => KeyHasher::Fnv,
        }
    }

    /// The hasher of a strategy's maps.
    pub fn hasher(self) -> (hasher: KeyHasher)
        ensures
            hasher == self.key_hasher(),
    {
        match self {
            MapStrategy::FineGrainedLockMap => KeyHasher::SeededByMap,
            _ => KeyHasher::Fnv,
        }
    }

    /// The order in which the strategies of one program are run and reported.
    pub open spec fn order() -> Seq<MapStrategy> {
        seq![
            MapStrategy::ExclusiveLockMap,
            MapStrategy::ShardedLockMap,
            MapStrategy::FineGrainedLockMap,
            MapStrategy::LockFreeMap,
        ]
    }

    /// The strategies in the order in which they are run and reported.
    pub fn execution_order() -> (strategies: Vec<MapStrategy>)
        ensures
            strategies@ == Self::order(),
    {
        let mut strategies: Vec<MapStrategy> = Vec::new();
        strategies.push(MapStrategy::ExclusiveLockMap);
        strategies.push(MapStrategy::ShardedLockMap);
        strategies.push(MapStrategy::FineGrainedLockMap);
        strategies.push(MapStrategy::LockFreeMap);
        assert(strategies@ =~= Self::order());
        strategies
    }
}

} // verus!
