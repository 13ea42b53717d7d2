//! The map implementations that the strategies rest on, and what is taken on
//! trust about each of them.
//!
//! Every statement about what a map holds is made for a map that a single
//! owner holds by value. A jointly owned map of an outside crate is kept inside
//! a struct of this module that shows nothing of itself: such a map can be
//! written to and handed back to its last owner, and never read.

use vstd::prelude::*;
use std::collections::HashMap;
use std::hash::BuildHasherDefault;
use std::sync::Arc;
use std::sync::RwLock;
use std::sync::RwLockWriteGuard;
use chashmap::CHashMap;
use dashmap::DashMap;
use fnv::FnvHasher;
use crate::model::Contents;
use crate::model::lookup;
use crate::shards::MAX_SHARDS;
use crate::shared::MAX_ROOM;

verus! {

/// The hasher builder that every hashed strategy is created with.
pub type FnvBuild = BuildHasherDefault<FnvHasher>;

/// The map behind the exclusive-lock strategy.
pub type HashedMap = HashMap<usize, usize, FnvBuild>;

/// The map behind the sharded-lock strategy.
pub type ShardedMap = DashMap<usize, usize, FnvBuild>;

/// The map behind the fine-grained-lock strategy.
pub type BucketedMap = CHashMap<usize, usize>;

/// The map behind the lock-free strategy.
pub type EpochMap = flurry::HashMap<usize, usize, FnvBuild>;

/// The hasher state of the `fnv` crate; carried through, never inspected.
#[verifier::external_type_specification]
#[verifier::external_body]
pub struct ExFnvHasher(FnvHasher);

/// std's adapter that builds hashers by `Default`; carried through, never inspected.
#[verifier::external_type_specification]
#[verifier::external_body]
#[verifier::reject_recursive_types(H)]
pub struct ExBuildHasherDefault<H>(BuildHasherDefault<H>);

/// `dashmap::DashMap`, a hash map split into independently locked shards.
#[verifier::external_type_specification]
#[verifier::external_body]
#[verifier::reject_recursive_types(K)]
#[verifier::reject_recursive_types(V)]
#[verifier::reject_recursive_types(S)]
pub struct ExDashMap<K, V, S>(DashMap<K, V, S>);

/// `chashmap::CHashMap`, a hash map with one lock per bucket.
#[verifier::external_type_specification]
#[verifier::external_body]
#[verifier::reject_recursive_types(K)]
#[verifier::reject_recursive_types(V)]
pub struct ExCHashMap<K, V>(CHashMap<K, V>);

/// `flurry::HashMap`, a lock-free hash map whose operations run under an epoch guard.
#[verifier::external_type_specification]
#[verifier::external_body]
#[verifier::reject_recursive_types(K)]
#[verifier::reject_recursive_types(V)]
#[verifier::reject_recursive_types(S)]
pub struct ExFlurryMap<K, V, S>(flurry::HashMap<K, V, S>);

/// `std::sync::RwLock`; what it guards is invisible from outside the lock.
#[verifier::external_type_specification]
#[verifier::external_body]
#[verifier::reject_recursive_types(T)]
pub struct ExRwLock<T: ?Sized>(RwLock<T>);

/// `std::sync::RwLockWriteGuard`, the proof of holding a lock for writing.
#[verifier::external_type_specification]
#[verifier::external_body]
#[verifier::reject_recursive_types(T)]
pub struct ExRwLockWriteGuard<'a, T: ?Sized + 'a>(RwLockWriteGuard<'a, T>);

/// The pairs that a sharded map holds.
pub uninterp spec fn sharded_contents(m: ShardedMap) -> Contents;

/// The number of shards that a sharded map was made with. It stays the same
/// for as long as the map lives.
pub uninterp spec fn sharded_shard_amount(m: ShardedMap) -> usize;

/// The pairs that a bucket-locked map holds.
pub uninterp spec fn bucketed_contents(m: BucketedMap) -> Contents;

/// The pairs that a lock-free map holds.
pub uninterp spec fn lock_free_contents(m: EpochMap) -> Contents;

// ---------------------------------------------------------------------------
// std::collections::HashMap with the FNV hasher
// ---------------------------------------------------------------------------

/// Calls `BuildHasherDefault::default`, which gives the builder of FNV
/// hashers. The builder holds no state: every hasher it builds starts alike.
#[verifier::external_body]
pub(crate) fn fnv_builder() -> (hasher: FnvBuild) {
    FnvBuild::default()
}

/// Calls `HashMap::with_capacity_and_hasher`, which gives an empty map that
/// hashes with the given builder. With a capacity of zero, the only one that
/// is admitted here, the map allocates nothing.
#[verifier::external_body]
pub(crate) fn hashed_new(capacity: usize, hasher: FnvBuild) -> (made: HashedMap)
    requires
        capacity == 0,
    ensures
        made@ == Contents::empty(),
{
    HashMap::with_capacity_and_hasher(capacity, hasher)
}

/// Calls `HashMap::insert`: the pair is stored, and an earlier value under the
/// same key is replaced. FNV hashing is a pure function of the key's bytes, so
/// the map keeps one entry per distinct key.
#[verifier::external_body]
pub(crate) fn hashed_insert(m: &mut HashedMap, key: usize, value: usize)
    ensures
        final(m)@ == old(m)@.insert(key, value),
{
    m.insert(key, value);
}

/// Calls `HashMap::len`, the number of entries.
#[verifier::external_body]
pub(crate) fn hashed_len(m: &HashedMap) -> (count: usize)
    ensures
        count == m@.len(),
{
    m.len()
}

/// Calls `HashMap::get` and copies the value out: the value stored under the
/// key, or `None` where the key is absent.
#[verifier::external_body]
pub(crate) fn hashed_get(m: &HashedMap, key: usize) -> (found: Option<usize>)
    ensures
        found == lookup(m@, key),
{
    match m.get(&key) {
        Some(value) => Some(*value),
        None => None,
    }
}

// ---------------------------------------------------------------------------
// dashmap::DashMap
// ---------------------------------------------------------------------------

/// Calls `DashMap::with_capacity_and_hasher_and_shard_amount`. The outside
/// function asserts that the shard amount is greater than one and a power of
/// two, and allocates one cache-padded shard, of at most 256 bytes, per unit of
/// it; a table of more than `isize::MAX` bytes cannot be allocated. It returns
/// a map of that many shards, all empty, that hash with the given builder.
/// With a capacity of zero, the only one that is admitted here, no shard
/// allocates.
#[verifier::external_body]
pub(crate) fn sharded_new(capacity: usize, hasher: FnvBuild, shard_amount: usize) -> (made:
    ShardedMap)
    requires
        capacity == 0,
        1 < shard_amount <= MAX_SHARDS,
        vstd::arithmetic::power2::is_pow2(shard_amount as int),
    ensures
        sharded_contents(made) == Contents::empty(),
        sharded_shard_amount(made) == shard_amount,
{
    DashMap::with_capacity_and_hasher_and_shard_amount(capacity, hasher, shard_amount)
}

/// Calls `DashMap::insert` on a map that no one else can reach: the pair is
/// stored in the shard of its key, replacing any earlier value of that key.
/// The shards themselves stay as they are. The caller holds no reference into
/// the map, so the call cannot deadlock.
#[verifier::external_body]
pub(crate) fn sharded_insert(m: &mut ShardedMap, key: usize, value: usize)
    ensures
        sharded_contents(*final(m)) == sharded_contents(*old(m)).insert(key, value),
        sharded_shard_amount(*final(m)) == sharded_shard_amount(*old(m)),
{
    m.insert(key, value);
}

/// Calls `DashMap::len`, which adds up the entries of all shards.
#[verifier::external_body]
pub(crate) fn sharded_len(m: &ShardedMap) -> (count: usize)
    ensures
        count == sharded_contents(*m).len(),
{
    m.len()
}

/// Calls `DashMap::get` and copies the value out of the returned reference:
/// the value stored under the key, or `None` where the key is absent.
#[verifier::external_body]
pub(crate) fn sharded_get(m: &ShardedMap, key: usize) -> (found: Option<usize>)
    ensures
        found == lookup(sharded_contents(*m), key),
{
    match m.get(&key) {
        Some(entry) => Some(*entry.value()),
        None => None,
    }
}

// ---------------------------------------------------------------------------
// chashmap::CHashMap
// ---------------------------------------------------------------------------

/// Calls `CHashMap::with_capacity`, which gives a table of empty buckets and a
/// length of zero. With a capacity of zero, the only one that is admitted here,
/// the table has the crate's minimum of eight buckets. The crate takes no
/// hasher builder: every table hashes with a `RandomState` of its own.
#[verifier::external_body]
pub(crate) fn bucketed_new(capacity: usize) -> (made: BucketedMap)
    requires
        capacity == 0,
    ensures
        bucketed_contents(made) == Contents::empty(),
{
    CHashMap::with_capacity(capacity)
}

/// Calls `CHashMap::insert` on a map that no one else can reach: it replaces
/// an existing entry of the key or stores a new one. The crate probes from the
/// key's hash upwards and adds the offset without a check, which only a hash
/// within a cluster's length of `usize::MAX` could overflow.
#[verifier::external_body]
pub(crate) fn bucketed_insert(m: &mut BucketedMap, key: usize, value: usize)
    ensures
        bucketed_contents(*final(m)) == bucketed_contents(*old(m)).insert(key, value),
{
    m.insert(key, value);
}

/// Calls `CHashMap::reserve` on a map that no one else can reach. The outside
/// function makes sure that the table has at least four buckets for each of
/// the map's entries and of the `additional` ones, moving the entries to a
/// larger table where it has fewer. What the map holds stays the same.
#[verifier::external_body]
pub(crate) fn bucketed_reserve(m: &mut BucketedMap, additional: usize)
    requires
        additional <= MAX_ROOM,
    ensures
        bucketed_contents(*final(m)) == bucketed_contents(*old(m)),
{
    m.reserve(additional);
}

/// Calls `CHashMap::len`, the number of entries in the table.
#[verifier::external_body]
pub(crate) fn bucketed_len(m: &BucketedMap) -> (count: usize)
    ensures
        count == bucketed_contents(*m).len(),
{
    m.len()
}

/// Calls `CHashMap::get` and copies the value out of the returned guard: the
/// value stored under the key, or `None` where the bucket is empty.
#[verifier::external_body]
pub(crate) fn bucketed_get(m: &BucketedMap, key: usize) -> (found: Option<usize>)
    ensures
        found == lookup(bucketed_contents(*m), key),
{
    match m.get(&key) {
        Some(guard) => Some(*guard),
        None => None,
    }
}

// ---------------------------------------------------------------------------
// flurry::HashMap
// ---------------------------------------------------------------------------

/// Calls `flurry::HashMap::with_capacity_and_hasher`, which gives an empty map
/// that hashes with the given builder. With a capacity of zero, the only one
/// that is admitted here, the table is not allocated before the first insert.
#[verifier::external_body]
pub(crate) fn lock_free_new(capacity: usize, hasher: FnvBuild) -> (made: EpochMap)
    requires
        capacity == 0,
    ensures
        lock_free_contents(made) == Contents::empty(),
{
    flurry::HashMap::with_capacity_and_hasher(capacity, hasher)
}

/// Calls `HashMap::pin` and then `HashMapRef::insert` on a map that no one else
/// can reach: under the guard of the pin the pair is stored, and where the key
/// was present its value is updated. The guard ends with the call.
#[verifier::external_body]
pub(crate) fn lock_free_insert(m: &mut EpochMap, key: usize, value: usize)
    ensures
        lock_free_contents(*final(m)) == lock_free_contents(*old(m)).insert(key, value),
{
    m.pin().insert(key, value);
}

/// Calls `flurry::HashMap::len`, the number of entries.
#[verifier::external_body]
pub(crate) fn lock_free_len(m: &EpochMap) -> (count: usize)
    ensures
        count == lock_free_contents(*m).len(),
{
    m.len()
}

/// Calls `HashMap::pin` and then `HashMapRef::get`, and copies the value out:
/// the value stored under the key, or `None` where the key is absent.
#[verifier::external_body]
pub(crate) fn lock_free_get(m: &EpochMap, key: usize) -> (found: Option<usize>)
    ensures
        found == lookup(lock_free_contents(*m), key),
{
    match m.pin().get(&key) {
        Some(value) => Some(*value),
        None => None,
    }
}

// ---------------------------------------------------------------------------
// Joint ownership
// ---------------------------------------------------------------------------

/// Calls `Arc::clone`: one more owner of the same lock.
#[verifier::external_body]
pub(crate) fn lock_co_owner(shared: &Arc<RwLock<HashedMap>>) -> (other: Arc<RwLock<HashedMap>>)
    ensures
        other == *shared,
{
    Arc::clone(shared)
}

/// Calls `Arc::into_inner`, which hands the lock out to the last owner and
/// gives `None` to every other. Which of the two a caller gets depends on what
/// the other owners have done, so nothing is stated of the outcome.
#[verifier::external_body]
pub(crate) fn lock_reclaim(shared: Arc<RwLock<HashedMap>>) -> (sole: Option<RwLock<HashedMap>>) {
    Arc::into_inner(shared)
}

/// Calls `RwLock::new`, which puts the map behind a lock.
#[verifier::external_body]
pub(crate) fn lock_new(map: HashedMap) -> (lock: RwLock<HashedMap>) {
    RwLock::new(map)
}

/// Calls `RwLock::write`, which blocks until the caller is the only party
/// with access. A lock that a failed writer left poisoned is taken over. The
/// calling thread must not hold the lock already; the one caller lets go of
/// the guard before it returns.
#[verifier::external_body]
pub(crate) fn lock_write<'a>(lock: &'a RwLock<HashedMap>) -> (guard: RwLockWriteGuard<'a, HashedMap>) {
    match lock.write() {
        Ok(guard) => guard,
        Err(poisoned) => poisoned.into_inner(),
    }
}

/// Calls `DerefMut::deref_mut` on a write guard: the map behind the lock, for
/// as long as the guard is borrowed.
#[verifier::external_body]
pub(crate) fn locked_map<'a, 'b>(guard: &'a mut RwLockWriteGuard<'b, HashedMap>) -> (map: &'a mut HashedMap) {
    &mut **guard
}

/// Calls `RwLock::into_inner`, which consumes the lock and hands out the map
/// that it guarded, poisoned or not. What the map holds is not known, only
/// that it is finitely many pairs.
#[verifier::external_body]
pub(crate) fn lock_into_inner(lock: RwLock<HashedMap>) -> (map: HashedMap)
    ensures
        map@.dom().finite(),
{
    match lock.into_inner() {
        Ok(map) => map,
        Err(poisoned) => poisoned.into_inner(),
    }
}

/// A sharded map in joint ownership: an `Arc` around the map, of which
/// nothing can be seen from outside this module.
#[verifier::external_body]
pub struct JointSharded {
    inner: Arc<ShardedMap>,
}

/// A bucket-locked map in joint ownership: an `Arc` around the map, of which
/// nothing can be seen from outside this module.
#[verifier::external_body]
pub struct JointBucketed {
    inner: Arc<BucketedMap>,
}

/// A lock-free map in joint ownership: an `Arc` around the map, of which
/// nothing can be seen from outside this module.
#[verifier::external_body]
pub struct JointEpoch {
    inner: Arc<EpochMap>,
}

/// Calls `Arc::new`, which moves the sharded map into joint ownership.
#[verifier::external_body]
pub(crate) fn sharded_share(m: ShardedMap) -> (joint: JointSharded) {
    JointSharded { inner: Arc::new(m) }
}

/// Calls `Arc::clone`: one more owner of the same sharded map.
#[verifier::external_body]
pub(crate) fn sharded_co_owner(joint: &JointSharded) -> (other: JointSharded)
    ensures
        other == *joint,
{
    JointSharded { inner: Arc::clone(&joint.inner) }
}

/// Calls `DashMap::insert` through a jointly owned map. The call locks the
/// shard of the key, stores the pair and returns; the caller holds no
/// reference into the map. What other owners write meanwhile is not known.
#[verifier::external_body]
pub(crate) fn sharded_insert_shared(joint: &JointSharded, key: usize, value: usize) {
    joint.inner.insert(key, value);
}

/// Calls `Arc::into_inner`, which hands the sharded map out to the last owner
/// and gives `None` to every other. Which of the two a caller gets, and what
/// the map then holds, depends on what the other owners have done; it holds
/// finitely many pairs.
#[verifier::external_body]
pub(crate) fn sharded_reclaim(joint: JointSharded) -> (sole: Option<ShardedMap>)
    ensures
        sole matches Some(m) ==> sharded_contents(m).dom().finite(),
{
    Arc::into_inner(joint.inner)
}

/// Calls `Arc::new`, which moves the bucket-locked map into joint ownership.
#[verifier::external_body]
pub(crate) fn bucketed_share(m: BucketedMap) -> (joint: JointBucketed) {
    JointBucketed { inner: Arc::new(m) }
}

/// Calls `Arc::clone`: one more owner of the same bucket-locked map.
#[verifier::external_body]
pub(crate) fn bucketed_co_owner(joint: &JointBucketed) -> (other: JointBucketed)
    ensures
        other == *joint,
{
    JointBucketed { inner: Arc::clone(&joint.inner) }
}

/// Calls `CHashMap::insert` through a jointly owned map. The call locks the
/// bucket of the key, stores the pair and returns. What other owners write
/// meanwhile is not known.
///
/// The outside function enlarges the table only after a new key has pushed
/// it past 85 % of its buckets, and until then every other owner may add one
/// new key. It fails where the table has no free bucket left, which takes more
/// owners writing at once than the table has free buckets at that bound. A map
/// comes into joint ownership only through `SharedMap::wrap`, which reserves
/// room for every owner first and hands out no more owners than that.
#[verifier::external_body]
pub(crate) fn bucketed_insert_shared(joint: &JointBucketed, key: usize, value: usize) {
    joint.inner.insert(key, value);
}

/// Calls `Arc::into_inner`, which hands the bucket-locked map out to the last
/// owner and gives `None` to every other. Which of the two a caller gets, and
/// what the map then holds, depends on what the other owners have done; it
/// holds finitely many pairs.
#[verifier::external_body]
pub(crate) fn bucketed_reclaim(joint: JointBucketed) -> (sole: Option<BucketedMap>)
    ensures
        sole matches Some(m) ==> bucketed_contents(m).dom().finite(),
{
    Arc::into_inner(joint.inner)
}

/// Calls `Arc::new`, which moves the lock-free map into joint ownership.
#[verifier::external_body]
pub(crate) fn lock_free_share(m: EpochMap) -> (joint: JointEpoch) {
    JointEpoch { inner: Arc::new(m) }
}

/// Calls `Arc::clone`: one more owner of the same lock-free map.
#[verifier::external_body]
pub(crate) fn lock_free_co_owner(joint: &JointEpoch) -> (other: JointEpoch)
    ensures
        other == *joint,
{
    JointEpoch { inner: Arc::clone(&joint.inner) }
}

/// Calls `HashMap::pin` and then `HashMapRef::insert` through a jointly owned
/// map: the thread is pinned, the pair is stored without a lock, and the guard
/// is released when the call returns. What other owners write meanwhile is
/// not known.
#[verifier::external_body]
pub(crate) fn lock_free_insert_shared(joint: &JointEpoch, key: usize, value: usize) {
    joint.inner.pin().insert(key, value);
}

/// Calls `Arc::into_inner`, which hands the lock-free map out to the last
/// owner and gives `None` to every other. Which of the two a caller gets, and
/// what the map then holds, depends on what the other owners have done; it
/// holds finitely many pairs.
#[verifier::external_body]
pub(crate) fn lock_free_reclaim(joint: JointEpoch) -> (sole: Option<EpochMap>)
    ensures
        sole matches Some(m) ==> lock_free_contents(m).dom().finite(),
{
    Arc::into_inner(joint.inner)
}

} // verus!
