//! A map that several owners write to at once. The strategy's own locking is
//! the only synchronisation: no lock is added around the map.
//!
//! A shared map is made for a stated number of owners. The fine-grained
//! strategy needs that number: its table must have a free bucket for every
//! owner when it is due to grow, so room is reserved before the map is shared.

use std::sync::Arc;
use std::sync::RwLock;
use vstd::prelude::*;
use crate::backend::{
    bucketed_co_owner, bucketed_insert_shared, bucketed_reclaim, bucketed_reserve, bucketed_share,
    hashed_insert, lock_co_owner, lock_free_co_owner, lock_free_insert_shared, lock_free_reclaim,
    lock_free_share, lock_into_inner, lock_new, lock_reclaim, lock_write, locked_map,
    sharded_co_owner, sharded_insert_shared, sharded_reclaim, sharded_share, BucketedMap, EpochMap,
    HashedMap, JointBucketed, JointEpoch, JointSharded, ShardedMap,
};
use crate::handle::{MapHandle, Store, NO_PREALLOCATION};
use crate::shards::ShardAmount;
use crate::strategy::MapStrategy;

verus! {

/// The most co-owners that a map of the fine-grained strategy is shared with.
pub const MAX_CO_OWNERS: usize = 65535;

/// The fewest entries that room is reserved for before a map of the
/// fine-grained strategy is shared.
pub const MIN_ROOM: usize = 64;

/// The most entries that room is ever reserved for: two for each of
/// `MAX_CO_OWNERS + 1` owners.
pub const MAX_ROOM: usize = 131072;

/// The number of entries that room is reserved for when a map of the
/// fine-grained strategy is shared among `owners` owners: two per owner, and
/// never less than `MIN_ROOM`.
pub open spec fn room_for(owners: int) -> int {
    if 2 * owners >= MIN_ROOM {
        2 * owners
    } else {
        MIN_ROOM as int
    }
}

/// The buckets of a table that are still free when the table is due to grow,
/// which is when more than 85 of 100 buckets are filled.
pub open spec fn free_when_due_to_grow(buckets: int) -> int {
    buckets - (85 * buckets) / 100
}

/// The co-owners that a map of `strategy` is shared with when `co_owners` are
/// asked for: as many as asked, but at most `MAX_CO_OWNERS` for the
/// fine-grained strategy.
pub open spec fn granted(strategy: MapStrategy, co_owners: usize) -> usize {
    if strategy == MapStrategy::FineGrainedLockMap && co_owners > MAX_CO_OWNERS {
        MAX_CO_OWNERS
    } else {
        co_owners
    }
}

/// A table with four buckets for each entry of the reserved room has, when it
/// is due to grow, a free bucket for every owner. So has every larger table.
pub proof fn lemma_room_bears_every_owner(owners: int, buckets: int)
    requires
        0 <= owners,
        buckets >= 4 * room_for(owners),
    ensures
        free_when_due_to_grow(buckets) >= owners,
{
    assert(100 * ((85 * buckets) / 100) <= 85 * buckets);
}

/// The map of one strategy, in the form in which it is shared.
pub(crate) enum SharedStore {
    Locked(Arc<RwLock<HashedMap>>),
    Sharded(JointSharded),
    Bucketed(JointBucketed),
    Epoch(JointEpoch),
}

/// One owner's handle on a jointly owned map. What the map holds at a given
/// moment depends on the other owners and is not part of this value.
pub struct SharedMap {
    pub(crate) store: SharedStore,
    /// The pairs that this owner has handed to the map, in the order of its
    /// calls. Other owners keep their own record.
    pub(crate) written: Ghost<Seq<(usize, usize)>>,
    /// The starting capacity that was handed over when the map was made.
    pub(crate) made_with: Ghost<usize>,
    /// The shard amount that the map had when it came into joint ownership.
    pub(crate) sharded_into: Ghost<Option<int>>,
    /// The number of co-owners that this handle may still make.
    pub(crate) spare: usize,
}

impl SharedMap {
    /// The strategy that the map is an instance of.
    pub closed spec fn kind(&self) -> MapStrategy {
        match self.store {
            SharedStore::Locked(_) => MapStrategy::ExclusiveLockMap,
            SharedStore::Sharded(_) => MapStrategy::ShardedLockMap,
            SharedStore::Bucketed(_) => MapStrategy::FineGrainedLockMap,
            SharedStore::Epoch(_) => MapStrategy::LockFreeMap,
        }
    }

    /// The pairs that this owner has handed to the map through this handle,
    /// in the order of its calls.
    pub closed spec fn written(&self) -> Seq<(usize, usize)> {
        self.written@
    }

    /// Both handles are on one and the same map.
    pub open(crate) spec fn same_map(self, other: SharedMap) -> bool {
        &&& self.store == other.store
        &&& self.made_with == other.made_with
        &&& self.sharded_into == other.sharded_into
    }

    /// The starting capacity that the map was made with.
    pub closed spec fn starting_capacity(&self) -> usize {
        self.made_with@
    }

    /// The number of shards that the map was made with; `None` for a strategy
    /// without shards.
    pub closed spec fn shard_amount(&self) -> Option<int> {
        self.sharded_into@
    }

    /// The number of co-owners that this handle may still make.
    pub closed spec fn spare_owners(&self) -> usize {
        self.spare
    }

    /// Wraps a map for joint ownership by the caller and up to `co_owners`
    /// further owners. The exclusive-lock strategy gets its single lock here;
    /// the others bring their own synchronisation. For the fine-grained
    /// strategy, room is reserved first so that the table has a free bucket
    /// for every owner whenever it is due to grow; that strategy is shared
    /// with `MAX_CO_OWNERS` co-owners at most.
    pub fn wrap(handle: MapHandle, co_owners: usize) -> (shared: SharedMap)
        ensures
            shared.kind() == handle.kind(),
            shared.written() == Seq::<(usize, usize)>::empty(),
            shared.starting_capacity() == handle.starting_capacity(),
            shared.shard_amount() == handle.shard_amount(),
            shared.spare_owners() == granted(handle.kind(), co_owners),
    {
        let made_with = handle.made_with;
        let sharded_into = Ghost(handle.shard_amount());
        match handle.store {
            Store::Hashed(m) => SharedMap {
                store: SharedStore::Locked(Arc::new(lock_new(m))),
                written: Ghost(Seq::empty()),
                made_with,
                sharded_into,
                spare: co_owners,
            },
            Store::Sharded(m) => SharedMap {
                store: SharedStore::Sharded(sharded_share(m)),
                written: Ghost(Seq::empty()),
                made_with,
                sharded_into,
                spare: co_owners,
            },
            Store::Bucketed(m) => {
                let spare = if co_owners > MAX_CO_OWNERS {
                    MAX_CO_OWNERS
                } else {
                    co_owners
                };
                let mut roomy = m;
                bucketed_reserve(&mut roomy, room_for_owners(spare + 1));
                SharedMap {
                    store: SharedStore::Bucketed(bucketed_share(roomy)),
                    written: Ghost(Seq::empty()),
                    made_with,
                    sharded_into,
                    spare,
                }
            },
            Store::Epoch(m) => SharedMap {
                store: SharedStore::Epoch(lock_free_share(m)),
                written: Ghost(Seq::empty()),
                made_with,
                sharded_into,
                spare: co_owners,
            },
        }
    }

    /// A fresh map of the given strategy, made with a starting capacity of
    /// zero and with `shards` shards where the strategy has shards, and wrapped
    /// for joint ownership by the caller and up to `co_owners` further owners.
    pub fn create(strategy: MapStrategy, shards: ShardAmount, co_owners: usize) -> (shared:
        SharedMap)
        ensures
            shared.kind() == strategy,
            shared.written() == Seq::<(usize, usize)>::empty(),
            shared.starting_capacity() == NO_PREALLOCATION,
            shared.shard_amount() == MapHandle::shards_read(strategy, shards),
            shared.spare_owners() == granted(strategy, co_owners),
    {
        SharedMap::wrap(MapHandle::create(strategy, shards), co_owners)
    }

    /// The strategy that the map is an instance of.
    pub fn strategy(&self) -> (strategy: MapStrategy)
        ensures
            strategy == self.kind(),
    {
        match &self.store {
            SharedStore::Locked(_) => MapStrategy::ExclusiveLockMap,
            SharedStore::Sharded(_) => MapStrategy::ShardedLockMap,
            SharedStore::Bucketed(_) => MapStrategy::FineGrainedLockMap,
            SharedStore::Epoch(_) => MapStrategy::LockFreeMap,
        }
    }

    /// The number of co-owners that this handle may still make.
    pub fn owners_left(&self) -> (left: usize)
        ensures
            left == self.spare_owners(),
    {
        self.spare
    }

    /// Another owner's handle on the same map, through which nothing has been
    /// written yet and which makes no owners of its own. There is none once
    /// this handle has made all the co-owners that the map was shared for.
    pub fn co_owner(&mut self) -> (other: Option<SharedMap>)
        ensures
            final(self).same_map(*old(self)),
            final(self).written() == old(self).written(),
            match other {
                Some(owner) => {
                    &&& old(self).spare_owners() > 0
                    &&& final(self).spare_owners() == old(self).spare_owners() - 1
                    &&& owner.same_map(*old(self))
                    &&& owner.written() == Seq::<(usize, usize)>::empty()
                    &&& owner.spare_owners() == 0
                },
                None => old(self).spare_owners() == 0 && final(self).spare_owners() == 0,
            },
    {
        if self.spare == 0 {
            return None;
        }
        let store = match &self.store {
            SharedStore::Locked(m) => SharedStore::Locked(lock_co_owner(m)),
            SharedStore::Sharded(m) => SharedStore::Sharded(sharded_co_owner(m)),
            SharedStore::Bucketed(m) => SharedStore::Bucketed(bucketed_co_owner(m)),
            SharedStore::Epoch(m) => SharedStore::Epoch(lock_free_co_owner(m)),
        };
        self.spare = self.spare - 1;
        Some(
            SharedMap {
                store,
                written: Ghost(Seq::empty()),
                made_with: self.made_with,
                sharded_into: self.sharded_into,
                spare: 0,
            },
        )
    }

    /// Hands the pair to the map, which stores `value` under `key` and
    /// overwrites an earlier value of the key. The call blocks only inside the
    /// strategy's own synchronisation. Every owner may write at the same time
    /// as every other: a map has no more owners than it was shared for, which
    /// for the fine-grained strategy is `MAX_CO_OWNERS + 1` at most.
    pub fn insert(&mut self, key: usize, value: usize)
        ensures
            final(self).written() == old(self).written().push((key, value)),
            final(self).same_map(*old(self)),
            final(self).spare_owners() == old(self).spare_owners(),
    {
        match &self.store {
            SharedStore::Locked(lock) => {
                let mut guard = lock_write(&**lock);
                let map = locked_map(&mut guard);
                hashed_insert(map, key, value);
            },
            SharedStore::Sharded(m) => sharded_insert_shared(m, key, value),
            SharedStore::Bucketed(m) => bucketed_insert_shared(m, key, value),
            SharedStore::Epoch(m) => lock_free_insert_shared(m, key, value),
        }
        self.written = Ghost(self.written@.push((key, value)));
    }

    /// Ends the sharing: the last owner gets the map back for itself, every
    /// other owner gets `None` and gives up its share. What the map holds then
    /// is for the owners to know; it is finitely many pairs.
    pub fn into_exclusive(self) -> (sole: Option<MapHandle>)
        ensures
            sole matches Some(handle) ==> handle.kind() == self.kind()
                && handle.starting_capacity() == self.starting_capacity()
                && handle@.dom().finite(),
    {
        let made_with = self.made_with;
        match self.store {
            SharedStore::Locked(shared) => {
                let regained = lock_reclaim(shared);
                regained_locked(regained, made_with)
            },
            SharedStore::Sharded(shared) => {
                let regained = sharded_reclaim(shared);
                regained_sharded(regained, made_with)
            },
            SharedStore::Bucketed(shared) => {
                let regained = bucketed_reclaim(shared);
                regained_bucketed(regained, made_with)
            },
            SharedStore::Epoch(shared) => {
                let regained = lock_free_reclaim(shared);
                regained_epoch(regained, made_with)
            },
        }
    }
}

/// Being on the same map is an equivalence, and handles on one map agree on
/// what the map was made with.
pub proof fn lemma_same_map_is_an_equivalence(a: SharedMap, b: SharedMap, c: SharedMap)
    ensures
        a.same_map(a),
        a.same_map(b) ==> b.same_map(a) && a.kind() == b.kind() && a.starting_capacity()
            == b.starting_capacity() && a.shard_amount() == b.shard_amount(),
        a.same_map(b) && b.same_map(c) ==> a.same_map(c),
{
}

/// The number of entries to reserve room for before a map of the fine-grained
/// strategy is shared among `owners` owners.
pub fn room_for_owners(owners: usize) -> (room: usize)
    ensures
        owners <= MAX_CO_OWNERS + 1 ==> room == room_for(owners as int) && room <= MAX_ROOM,
        owners > MAX_CO_OWNERS + 1 ==> room == MAX_ROOM,
{
    if owners > MAX_CO_OWNERS + 1 {
        MAX_ROOM
    } else if 2 * owners >= MIN_ROOM {
        2 * owners
    } else {
        MIN_ROOM
    }
}

/// The end of sharing under the exclusive-lock strategy, given what the
/// allocation handed back: the last owner takes the map out of its lock, and
/// an owner that was not the last is left with nothing.
pub(crate) fn regained_locked(
    regained: Option<RwLock<HashedMap>>,
    made_with: Ghost<usize>,
) -> (sole: Option<MapHandle>)
    ensures
        regained.is_some() <==> sole.is_some(),
        sole matches Some(handle) ==> handle.kind() == MapStrategy::ExclusiveLockMap
            && handle.starting_capacity() == made_with@ && handle@.dom().finite(),
{
    match regained {
        Some(lock) => Some(MapHandle { store: Store::Hashed(lock_into_inner(lock)), made_with }),
        None => None,
    }
}

/// The end of sharing under the sharded-lock strategy, given what the
/// allocation handed back: the last owner holds the map alone, and an owner
/// that was not the last is left with nothing.
pub(crate) fn regained_sharded(regained: Option<ShardedMap>, made_with: Ghost<usize>) -> (sole: Option<
    MapHandle,
>)
    ensures
        sole == (match regained {
            Some(m) => Some(MapHandle { store: Store::Sharded(m), made_with }),
            None => None,
        }),
{
    match regained {
        Some(m) => Some(MapHandle { store: Store::Sharded(m), made_with }),
        None => None,
    }
}

/// The end of sharing under the fine-grained-lock strategy, given what the
/// allocation handed back: the last owner holds the map alone, and an owner
/// that was not the last is left with nothing.
pub(crate) fn regained_bucketed(regained: Option<BucketedMap>, made_with: Ghost<usize>) -> (sole: Option<
    MapHandle,
>)
    ensures
        sole == (match regained {
            Some(m) => Some(MapHandle { store: Store::Bucketed(m), made_with }),
            None => None,
        }),
{
    match regained {
        Some(m) => Some(MapHandle { store: Store::Bucketed(m), made_with }),
        None => None,
    }
}

/// The end of sharing under the lock-free strategy, given what the allocation
/// handed back: the last owner holds the map alone, and an owner that was not
/// the last is left with nothing.
pub(crate) fn regained_epoch(regained: Option<EpochMap>, made_with: Ghost<usize>) -> (sole: Option<
    MapHandle,
>)
    ensures
        sole == (match regained {
            Some(m) => Some(MapHandle { store: Store::Epoch(m), made_with }),
            None => None,
        }),
{
    match regained {
        Some(m) => Some(MapHandle { store: Store::Epoch(m), made_with }),
        None => None,
    }
}

} // verus!
