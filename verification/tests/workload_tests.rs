use mapbench::handle::MapHandle;
use mapbench::shards::ShardAmount;
use mapbench::shared::{room_for_owners, SharedMap, MAX_CO_OWNERS, MAX_ROOM, MIN_ROOM};
use mapbench::strategy::{MapStrategy, RunConfig, Workload};
use mapbench::workload::{private_round, private_worker, run_in_turn, shared_worker};

fn shards() -> ShardAmount {
    ShardAmount::for_parallelism(4).unwrap()
}

fn assert_identity(handle: &MapHandle, n_rounds: usize) {
    assert_eq!(handle.len(), n_rounds);
    for k in 0..n_rounds {
        assert_eq!(handle.get(k), Some(k));
    }
    assert_eq!(handle.get(n_rounds), None);
}

#[test]
fn a_private_round_holds_its_single_pair() {
    for strategy in MapStrategy::execution_order() {
        for round in [0usize, 1, 17, 999] {
            let handle = private_round(strategy, shards(), round);
            assert_eq!(handle.len(), 1);
            assert_eq!(handle.get(round), Some(round));
            assert_eq!(handle.get(round + 1), None);
            assert_eq!(handle.strategy(), strategy);
        }
    }
}

#[test]
fn private_rounds_do_not_see_each_other() {
    for strategy in MapStrategy::execution_order() {
        let first = private_round(strategy, shards(), 1);
        let second = private_round(strategy, shards(), 2);
        assert_eq!(first.get(2), None);
        assert_eq!(second.get(1), None);
        assert_eq!(first.len(), 1);
        assert_eq!(second.len(), 1);
    }
}

#[test]
fn a_private_worker_runs_every_round() {
    for strategy in MapStrategy::execution_order() {
        assert_eq!(private_worker(strategy, shards(), 0).rounds, 0);
        assert_eq!(private_worker(strategy, shards(), 1).rounds, 1);
        assert_eq!(private_worker(strategy, shards(), 250).rounds, 250);
    }
}

#[test]
fn a_shared_worker_writes_the_key_range() {
    for strategy in MapStrategy::execution_order() {
        let mut shared = SharedMap::create(strategy, shards(), 0);
        assert_eq!(shared.strategy(), strategy);
        assert_eq!(shared_worker(&mut shared, 64), 64);
        let handle = shared.into_exclusive().unwrap();
        assert_eq!(handle.strategy(), strategy);
        assert_identity(&handle, 64);
    }
}

#[test]
fn four_co_owners_write_hundred_rounds_into_the_locked_map() {
    let mut shared = SharedMap::create(MapStrategy::ExclusiveLockMap, shards(), 4);
    let mut owners: Vec<SharedMap> = (0..4).map(|_| shared.co_owner().unwrap()).collect();
    for owner in owners.iter_mut() {
        assert_eq!(shared_worker(owner, 100), 100);
    }
    drop(owners);
    let handle = shared.into_exclusive().unwrap();
    assert_eq!(handle.len(), 100);
    for k in 0..100 {
        assert_eq!(handle.get(k), Some(k));
    }
}

#[test]
fn four_workers_in_turn_write_hundred_rounds_into_the_locked_map() {
    let left = run_in_turn(
        Workload::SharedContendedMap,
        MapStrategy::ExclusiveLockMap,
        shards(),
        RunConfig::new(100, 4),
    );
    let handle = left.unwrap();
    assert_eq!(handle.len(), 100);
    for k in 0..100 {
        assert_eq!(handle.get(k), Some(k));
    }
}

#[test]
fn shared_run_leaves_the_identity_for_every_strategy() {
    for strategy in MapStrategy::execution_order() {
        for (n_rounds, n_workers) in [(1usize, 1usize), (1, 5), (33, 1), (33, 3), (128, 8)] {
            let left = run_in_turn(
                Workload::SharedContendedMap,
                strategy,
                shards(),
                RunConfig::new(n_rounds, n_workers),
            );
            let handle = left.unwrap();
            assert_eq!(handle.strategy(), strategy);
            assert_identity(&handle, n_rounds);
        }
    }
}

#[test]
fn shared_run_with_interleaved_workers_leaves_the_identity() {
    for strategy in MapStrategy::execution_order() {
        let mut shared = SharedMap::create(strategy, shards(), 2);
        let mut a = shared.co_owner().unwrap();
        let mut b = shared.co_owner().unwrap();
        for i in 0..40 {
            a.insert(i, i);
            if i >= 10 {
                b.insert(i - 10, i - 10);
            }
        }
        for i in 30..40 {
            b.insert(i, i);
        }
        drop(a);
        drop(b);
        let handle = shared.into_exclusive().unwrap();
        assert_identity(&handle, 40);
    }
}

#[test]
fn zero_rounds_leave_an_empty_map() {
    for strategy in MapStrategy::execution_order() {
        let left = run_in_turn(
            Workload::SharedContendedMap,
            strategy,
            shards(),
            RunConfig::new(0, 4),
        );
        let handle = left.unwrap();
        assert_eq!(handle.len(), 0);
        assert_eq!(handle.get(0), None);

        let mut shared = SharedMap::create(strategy, shards(), 4);
        assert_eq!(shared_worker(&mut shared, 0), 0);
        assert_eq!(shared.into_exclusive().unwrap().len(), 0);

        assert_eq!(private_worker(strategy, shards(), 0).rounds, 0);
        let none = run_in_turn(
            Workload::PerThreadPrivateMap,
            strategy,
            shards(),
            RunConfig::new(0, 4),
        );
        assert!(none.is_none());
    }
}

#[test]
fn zero_rounds_are_timed_without_error() {
    for strategy in MapStrategy::execution_order() {
        let since = std::time::Instant::now();
        let left = run_in_turn(
            Workload::SharedContendedMap,
            strategy,
            shards(),
            RunConfig::new(0, 4),
        );
        let elapsed = since.elapsed();
        assert_eq!(left.unwrap().len(), 0);
        assert!(elapsed >= std::time::Duration::ZERO);
        assert!(elapsed < std::time::Duration::from_secs(10));
    }
}

#[test]
fn zero_workers_leave_an_empty_map() {
    for strategy in MapStrategy::execution_order() {
        let left = run_in_turn(
            Workload::SharedContendedMap,
            strategy,
            shards(),
            RunConfig::new(10, 0),
        );
        assert_eq!(left.unwrap().len(), 0);
    }
}

#[test]
fn private_run_leaves_no_map() {
    for strategy in MapStrategy::execution_order() {
        let left = run_in_turn(
            Workload::PerThreadPrivateMap,
            strategy,
            shards(),
            RunConfig::new(100, 4),
        );
        assert!(left.is_none());
    }
}

#[test]
fn thousand_rounds_eight_workers_complete() {
    for strategy in MapStrategy::execution_order() {
        let since = std::time::Instant::now();
        let mut shared = SharedMap::create(strategy, shards(), 8);
        for _ in 0..8 {
            let mut owner = shared.co_owner().unwrap();
            assert_eq!(shared_worker(&mut owner, 1000), 1000);
        }
        let handle = shared.into_exclusive().unwrap();
        assert_identity(&handle, 1000);
        for _ in 0..8 {
            assert_eq!(private_worker(strategy, shards(), 1000).rounds, 1000);
        }
        assert!(since.elapsed() < std::time::Duration::from_secs(15));
    }
}

#[test]
fn only_the_last_owner_gets_the_map_back() {
    for strategy in MapStrategy::execution_order() {
        let mut shared = SharedMap::create(strategy, shards(), 1);
        let mut other = shared.co_owner().unwrap();
        assert_eq!(other.strategy(), strategy);
        shared.insert(1, 1);
        other.insert(2, 2);
        assert!(shared.into_exclusive().is_none());
        let handle = other.into_exclusive().unwrap();
        assert_eq!(handle.len(), 2);
        assert_eq!(handle.get(1), Some(1));
        assert_eq!(handle.get(2), Some(2));
    }
}

#[test]
fn wrapping_keeps_what_the_map_holds() {
    for strategy in MapStrategy::execution_order() {
        let mut handle = MapHandle::create(strategy, shards());
        handle.insert(4, 40);
        let mut shared = SharedMap::wrap(handle, 0);
        assert_eq!(shared.strategy(), strategy);
        shared.insert(5, 50);
        shared.insert(4, 41);
        let handle = shared.into_exclusive().unwrap();
        assert_eq!(handle.len(), 2);
        assert_eq!(handle.get(4), Some(41));
        assert_eq!(handle.get(5), Some(50));
    }
}

#[test]
fn a_shared_map_makes_no_more_co_owners_than_it_was_shared_for() {
    for strategy in MapStrategy::execution_order() {
        let mut shared = SharedMap::create(strategy, shards(), 3);
        assert_eq!(shared.owners_left(), 3);
        let mut first = shared.co_owner().unwrap();
        assert_eq!(shared.owners_left(), 2);
        assert_eq!(first.owners_left(), 0);
        assert!(first.co_owner().is_none());
        let second = shared.co_owner().unwrap();
        let third = shared.co_owner().unwrap();
        assert_eq!(shared.owners_left(), 0);
        assert!(shared.co_owner().is_none());
        assert_eq!(shared.owners_left(), 0);
        assert_eq!(second.strategy(), strategy);
        assert_eq!(third.strategy(), strategy);
    }
}

#[test]
fn a_map_shared_for_no_one_else_has_no_co_owner() {
    for strategy in MapStrategy::execution_order() {
        let mut shared = SharedMap::create(strategy, shards(), 0);
        assert_eq!(shared.owners_left(), 0);
        assert!(shared.co_owner().is_none());
        shared.insert(3, 3);
        assert_eq!(shared.into_exclusive().unwrap().get(3), Some(3));
    }
}

#[test]
fn only_the_fine_grained_strategy_limits_its_co_owners() {
    for strategy in MapStrategy::execution_order() {
        let shared = SharedMap::create(strategy, shards(), MAX_CO_OWNERS);
        assert_eq!(shared.owners_left(), MAX_CO_OWNERS);
        let shared = SharedMap::create(strategy, shards(), MAX_CO_OWNERS + 1);
        if strategy == MapStrategy::FineGrainedLockMap {
            assert_eq!(shared.owners_left(), MAX_CO_OWNERS);
        } else {
            assert_eq!(shared.owners_left(), MAX_CO_OWNERS + 1);
        }
        let shared = SharedMap::create(strategy, shards(), usize::MAX);
        if strategy == MapStrategy::FineGrainedLockMap {
            assert_eq!(shared.owners_left(), MAX_CO_OWNERS);
        } else {
            assert_eq!(shared.owners_left(), usize::MAX);
        }
    }
}

#[test]
fn room_is_two_entries_per_owner_and_never_less_than_the_floor() {
    assert_eq!(MIN_ROOM, 64);
    assert_eq!(MAX_CO_OWNERS, 65535);
    assert_eq!(MAX_ROOM, 2 * (MAX_CO_OWNERS + 1));
    assert_eq!(room_for_owners(0), 64);
    assert_eq!(room_for_owners(1), 64);
    assert_eq!(room_for_owners(32), 64);
    assert_eq!(room_for_owners(33), 66);
    assert_eq!(room_for_owners(100), 200);
    assert_eq!(room_for_owners(MAX_CO_OWNERS + 1), MAX_ROOM);
    assert_eq!(room_for_owners(MAX_CO_OWNERS + 2), MAX_ROOM);
    assert_eq!(room_for_owners(usize::MAX), MAX_ROOM);
}

#[test]
fn a_reserved_table_has_a_free_bucket_for_every_owner_when_due_to_grow() {
    for owners in [1usize, 2, 3, 32, 33, 40, 1000, MAX_CO_OWNERS + 1] {
        let buckets = 4 * room_for_owners(owners);
        let free = buckets - 85 * buckets / 100;
        assert!(free >= owners);
    }
}

#[test]
fn many_co_owners_share_a_fine_grained_map() {
    let mut shared = SharedMap::create(MapStrategy::FineGrainedLockMap, shards(), 200);
    let mut owners: Vec<SharedMap> = (0..200).map(|_| shared.co_owner().unwrap()).collect();
    for round in 0..300 {
        for owner in owners.iter_mut() {
            owner.insert(round, round);
        }
    }
    drop(owners);
    let handle = shared.into_exclusive().unwrap();
    assert_eq!(handle.len(), 300);
    assert_eq!(handle.get(299), Some(299));
}

#[test]
fn wrapping_a_filled_fine_grained_map_keeps_every_pair() {
    let mut handle = MapHandle::create(MapStrategy::FineGrainedLockMap, shards());
    handle.fill(500);
    let mut shared = SharedMap::wrap(handle, 10);
    shared.insert(500, 7);
    let handle = shared.into_exclusive().unwrap();
    assert_eq!(handle.len(), 501);
    for k in 0..500 {
        assert_eq!(handle.get(k), Some(k));
    }
    assert_eq!(handle.get(500), Some(7));
}
