//! A map that a single owner holds: every write is seen by the next read, so
//! what the map holds is known exactly.

use vstd::prelude::*;
use crate::backend::{
    bucketed_contents, bucketed_get, bucketed_insert, bucketed_len, bucketed_new, fnv_builder,
    hashed_get, hashed_insert, hashed_len, hashed_new, lock_free_contents, lock_free_get,
    lock_free_insert, lock_free_len, lock_free_new, sharded_contents, sharded_get, sharded_insert,
    sharded_len, sharded_new, sharded_shard_amount, BucketedMap, EpochMap, HashedMap, ShardedMap,
};
use crate::model::{lookup, overlay, Contents};
use crate::shards::ShardAmount;
use crate::strategy::{KeyHasher, MapStrategy};

verus! {

/// The starting capacity of a map for which nothing is preallocated.
pub const NO_PREALLOCATION: usize = 0;

/// The map of one strategy, held by value.
pub(crate) enum Store {
    Hashed(HashedMap),
    Sharded(ShardedMap),
    Bucketed(BucketedMap),
    Epoch(EpochMap),
}

impl Store {
    /// The pairs that the map holds.
    pub(crate) open spec fn contents(self) -> Contents {
        match self {
            Store::Hashed(m) => m@,
            Store::Sharded(m) => sharded_contents(m),
            Store::Bucketed(m) => bucketed_contents(m),
            Store::Epoch(m) => lock_free_contents(m),
        }
    }

    /// The strategy that the map belongs to.
    pub(crate) open spec fn kind(self) -> MapStrategy {
        match self {
            Store::Hashed(_) => MapStrategy::ExclusiveLockMap,
            Store::Sharded(_) => MapStrategy::ShardedLockMap,
            Store::Bucketed(_) => MapStrategy::FineGrainedLockMap,
            Store::Epoch(_) => MapStrategy::LockFreeMap,
        }
    }

    /// The number of shards that the map was made with, for a sharded map.
    pub(crate) open spec fn shard_amount(self) -> Option<int> {
        match self {
            Store::Sharded(m) => Some(sharded_shard_amount(m) as int),
            _ => None,
        }
    }

    /// What the map hashes its keys with. The type of each map says it: three
    /// carry the FNV builder, and the bucket-locked map carries none.
    pub(crate) open spec fn key_hasher(self) -> KeyHasher {
        match self {
            Store::Bucketed(_) => KeyHasher::SeededByMap,
            _ => KeyHasher::Fnv,
        }
    }

    /// Stores the pair in whichever map this is.
    pub(crate) fn insert(&mut self, key: usize, value: usize)
        ensures
            final(self).contents() == old(self).contents().insert(key, value),
            final(self).kind() == old(self).kind(),
            final(self).shard_amount() == old(self).shard_amount(),
    {
        match self {
            Store::Hashed(m) => hashed_insert(m, key, value),
            Store::Sharded(m) => sharded_insert(m, key, value),
            Store::Bucketed(m) => bucketed_insert(m, key, value),
            Store::Epoch(m) => lock_free_insert(m, key, value),
        }
    }
}

/// An instance of one map strategy that its holder owns alone.
pub struct MapHandle {
    pub(crate) store: Store,
    /// The starting capacity that was handed over when the map was made.
    pub(crate) made_with: Ghost<usize>,
}

impl View for MapHandle {
    type V = Contents;

    /// The pairs that the map holds.
    open(crate) spec fn view(&self) -> Contents {
        self.store.contents()
    }
}

impl MapHandle {
    /// The strategy that the handle is an instance of.
    pub open(crate) spec fn kind(&self) -> MapStrategy {
        self.store.kind()
    }

    /// The starting capacity that the map was made with.
    pub open(crate) spec fn starting_capacity(&self) -> usize {
        self.made_with@
    }

    /// The number of shards that the map was made with; `None` for a strategy
    /// without shards.
    pub open(crate) spec fn shard_amount(&self) -> Option<int> {
        self.store.shard_amount()
    }

    /// What the map hashes its keys with.
    pub open(crate) spec fn key_hasher(&self) -> KeyHasher {
        self.store.key_hasher()
    }

    /// The shard amount that a map of `strategy` is made with when it is
    /// handed `shards`: that amount for the sharded strategy, none otherwise.
    pub open spec fn shards_read(strategy: MapStrategy, shards: ShardAmount) -> Option<int> {
        if strategy == MapStrategy::ShardedLockMap {
            Some(shards@)
        } else {
            None
        }
    }

    /// A fresh, empty map of the given strategy, made with a starting capacity
    /// of zero. The sharded strategy makes it with `shards` shards; no other
    /// strategy reads `shards`. Three strategies hash with FNV; the
    /// fine-grained one has no choice of hasher, and its table never has less
    /// than a fixed minimum of buckets.
    pub fn create(strategy: MapStrategy, shards: ShardAmount) -> (handle: MapHandle)
        ensures
            handle@ == Contents::empty(),
            handle.kind() == strategy,
            handle.starting_capacity() == NO_PREALLOCATION,
            handle.shard_amount() == Self::shards_read(strategy, shards),
            handle.key_hasher() == strategy.key_hasher(),
    {
        let store = match strategy {
            MapStrategy::ExclusiveLockMap => Store::Hashed(
                hashed_new(NO_PREALLOCATION, fnv_builder()),
            ),
            MapStrategy::ShardedLockMap => Store::Sharded(
                sharded_new(NO_PREALLOCATION, fnv_builder(), shards.get()),
            ),
            MapStrategy::FineGrainedLockMap => Store::Bucketed(bucketed_new(NO_PREALLOCATION)),
            MapStrategy::LockFreeMap => Store::Epoch(
                lock_free_new(NO_PREALLOCATION, fnv_builder()),
            ),
        };
        MapHandle { store, made_with: Ghost(NO_PREALLOCATION) }
    }

    /// The strategy that the handle is an instance of.
    pub fn strategy(&self) -> (strategy: MapStrategy)
        ensures
            strategy == self.kind(),
    {
        match &self.store {
            Store::Hashed(_) => MapStrategy::ExclusiveLockMap,
            Store::Sharded(_) => MapStrategy::ShardedLockMap,
            Store::Bucketed(_) => MapStrategy::FineGrainedLockMap,
            Store::Epoch(_) => MapStrategy::LockFreeMap,
        }
    }

    /// Stores `value` under `key`. A value stored earlier under the same key is
    /// overwritten; no other entry changes.
    pub fn insert(&mut self, key: usize, value: usize)
        ensures
            final(self)@ == old(self)@.insert(key, value),
            final(self).kind() == old(self).kind(),
            final(self).starting_capacity() == old(self).starting_capacity(),
            final(self).shard_amount() == old(self).shard_amount(),
    {
        self.store.insert(key, value);
    }

    /// The number of distinct keys in the map.
    pub fn len(&self) -> (count: usize)
        ensures
            count == self@.len(),
    {
        match &self.store {
            Store::Hashed(m) => hashed_len(m),
            Store::Sharded(m) => sharded_len(m),
            Store::Bucketed(m) => bucketed_len(m),
            Store::Epoch(m) => lock_free_len(m),
        }
    }

    /// The value stored under `key`, or `None` where the key is absent.
    pub fn get(&self, key: usize) -> (found: Option<usize>)
        ensures
            found == lookup(self@, key),
    {
        match &self.store {
            Store::Hashed(m) => hashed_get(m, key),
            Store::Sharded(m) => sharded_get(m, key),
            Store::Bucketed(m) => bucketed_get(m, key),
            Store::Epoch(m) => lock_free_get(m, key),
        }
    }

    /// One worker's whole pass over the key range: stores `(i, i)` for every
    /// `i` below `n_rounds`, in ascending order.
    pub fn fill(&mut self, n_rounds: usize)
        ensures
            final(self)@ == overlay(old(self)@, n_rounds as nat),
            final(self).kind() == old(self).kind(),
            final(self).starting_capacity() == old(self).starting_capacity(),
            final(self).shard_amount() == old(self).shard_amount(),
    {
        let mut i: usize = 0;
        assert(self@ =~= overlay(old(self)@, 0));
        while i < n_rounds
            invariant
                i <= n_rounds,
                self@ == overlay(old(self)@, i as nat),
                self.kind() == old(self).kind(),
                self.starting_capacity() == old(self).starting_capacity(),
                self.shard_amount() == old(self).shard_amount(),
            decreases n_rounds - i,
        {
            self.insert(i, i);
            i = i + 1;
            assert(self@ =~= overlay(old(self)@, i as nat));
        }
    }
}

} // verus!
