use mapbench::report::report_line;
use mapbench::shards::{ShardAmount, MAX_SHARDS, SHARDS_PER_THREAD};
use mapbench::strategy::{KeyHasher, MapStrategy, RunConfig, Workload};

#[test]
fn strategies_have_their_reported_names() {
    assert_eq!(MapStrategy::ExclusiveLockMap.name(), "std hashmap");
    assert_eq!(MapStrategy::ShardedLockMap.name(), "dashmap");
    assert_eq!(MapStrategy::FineGrainedLockMap.name(), "chashmap");
    assert_eq!(MapStrategy::LockFreeMap.name(), "flurry");
}

#[test]
fn execution_order_is_fixed() {
    assert_eq!(
        MapStrategy::execution_order(),
        vec![
            MapStrategy::ExclusiveLockMap,
            MapStrategy::ShardedLockMap,
            MapStrategy::FineGrainedLockMap,
            MapStrategy::LockFreeMap,
        ]
    );
}

#[test]
fn run_config_keeps_its_numbers() {
    let config = RunConfig::new(100, 4);
    assert_eq!(config.n_rounds, 100);
    assert_eq!(config.n_workers, 4);
    assert_eq!(config, RunConfig { n_rounds: 100, n_workers: 4 });
    assert_ne!(Workload::PerThreadPrivateMap, Workload::SharedContendedMap);
}

#[test]
fn report_line_is_name_space_duration() {
    assert_eq!(report_line(MapStrategy::ExclusiveLockMap, "1.5ms"), "std hashmap 1.5ms");
    assert_eq!(report_line(MapStrategy::ShardedLockMap, "12.25µs"), "dashmap 12.25µs");
    assert_eq!(report_line(MapStrategy::FineGrainedLockMap, "3s"), "chashmap 3s");
    assert_eq!(report_line(MapStrategy::LockFreeMap, ""), "flurry ");
}

#[test]
fn report_line_renders_a_real_duration() {
    let elapsed = format!("{:?}", std::time::Duration::from_millis(1500));
    assert_eq!(report_line(MapStrategy::LockFreeMap, &elapsed), "flurry 1.5s");
}

#[test]
fn shard_amount_is_four_per_thread_rounded_up() {
    assert_eq!(ShardAmount::for_parallelism(1).map(|s| s.get()), Some(4));
    assert_eq!(ShardAmount::for_parallelism(2).map(|s| s.get()), Some(8));
    assert_eq!(ShardAmount::for_parallelism(3).map(|s| s.get()), Some(16));
    assert_eq!(ShardAmount::for_parallelism(4).map(|s| s.get()), Some(16));
    assert_eq!(ShardAmount::for_parallelism(5).map(|s| s.get()), Some(32));
    assert_eq!(ShardAmount::for_parallelism(8).map(|s| s.get()), Some(32));
    assert_eq!(ShardAmount::for_parallelism(9).map(|s| s.get()), Some(64));
    assert_eq!(ShardAmount::for_parallelism(96).map(|s| s.get()), Some(512));
}

#[test]
fn shard_amount_agrees_with_next_power_of_two() {
    assert_eq!(SHARDS_PER_THREAD, 4);
    for parallelism in 1usize..=300 {
        let expected = (parallelism * SHARDS_PER_THREAD).next_power_of_two();
        assert_eq!(ShardAmount::for_parallelism(parallelism).map(|s| s.get()), Some(expected));
    }
}

#[test]
fn shard_amount_needs_some_parallelism() {
    assert!(ShardAmount::for_parallelism(0).is_none());
}

#[test]
fn shard_amount_beyond_the_limit_is_refused() {
    assert_eq!(MAX_SHARDS, usize::MAX / 512);
    assert!(ShardAmount::for_parallelism(usize::MAX).is_none());
    assert!(ShardAmount::for_parallelism(usize::MAX / 4).is_none());
    assert!(ShardAmount::for_parallelism(usize::MAX / 4 + 1).is_none());
    let largest_amount = 1usize << (usize::BITS - 10);
    assert!(largest_amount <= MAX_SHARDS);
    assert!(largest_amount > MAX_SHARDS / 2);
    assert_eq!(
        ShardAmount::for_parallelism(largest_amount / 4).map(|s| s.get()),
        Some(largest_amount)
    );
    assert_eq!(
        ShardAmount::for_parallelism(largest_amount / 8 + 1).map(|s| s.get()),
        Some(largest_amount)
    );
    assert!(ShardAmount::for_parallelism(largest_amount / 4 + 1).is_none());
    assert!(ShardAmount::for_parallelism(largest_amount / 2).is_none());
}

#[test]
fn every_strategy_but_the_fine_grained_hashes_with_fnv() {
    assert_eq!(MapStrategy::ExclusiveLockMap.hasher(), KeyHasher::Fnv);
    assert_eq!(MapStrategy::ShardedLockMap.hasher(), KeyHasher::Fnv);
    assert_eq!(MapStrategy::FineGrainedLockMap.hasher(), KeyHasher::SeededByMap);
    assert_eq!(MapStrategy::LockFreeMap.hasher(), KeyHasher::Fnv);
}
