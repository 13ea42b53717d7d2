//! The mathematical side of the workloads: what a map holds, what a worker's
//! pass writes, and what any interleaving of several workers leaves behind.

use vstd::prelude::*;

verus! {

/// What a map holds, as a mathematical map from key to value.
pub type Contents = Map<usize, usize>;

/// The value stored under `key`, if there is one.
pub open spec fn lookup(contents: Contents, key: usize) -> Option<usize> {
    if contents.contains_key(key) {
        Some(contents[key])
    } else {
        None
    }
}

/// The map that holds exactly the keys below `n`, each mapped to itself.
pub open spec fn identity_upto(n: nat) -> Contents {
    Map::new(|k: usize| k < n, |k: usize| k)
}

/// `base` after the pairs `(k, k)` for every `k` below `n` were written over it.
pub open spec fn overlay(base: Contents, n: nat) -> Contents {
    Map::new(
        |k: usize| k < n || base.contains_key(k),
        |k: usize|
            if k < n {
                k
            } else {
                base[k]
            },
    )
}

/// An interleaving of several workers' inserts: the worker that makes each
/// step, in the order in which the map sees the steps.
pub type Schedule = Seq<nat>;

/// How many steps of `schedule` are made by `worker`.
pub open spec fn steps_of(schedule: Schedule, worker: nat) -> nat
    decreases schedule.len(),
{
    if schedule.len() == 0 {
        0
    } else {
        let earlier = steps_of(schedule.drop_last(), worker);
        if schedule.last() == worker {
            earlier + 1
        } else {
            earlier
        }
    }
}

/// What `base` has become after the steps of `schedule`. A worker's steps
/// write its key range in ascending order: the step that follows `k` earlier
/// steps of the same worker stores `round_pair(k)`.
pub open spec fn replay(base: Contents, schedule: Schedule) -> Contents
    decreases schedule.len(),
{
    if schedule.len() == 0 {
        base
    } else {
        let earlier = schedule.drop_last();
        let pair = round_pair(steps_of(earlier, schedule.last()));
        replay(base, earlier).insert(pair.0, pair.1)
    }
}

/// `schedule` is a whole run: every step is made by one of `n_workers`
/// workers, and each of them makes exactly `n_rounds` steps.
pub open spec fn is_whole_run(schedule: Schedule, n_workers: nat, n_rounds: nat) -> bool {
    &&& forall|i: int| 0 <= i < schedule.len() ==> #[trigger] schedule[i] < n_workers
    &&& forall|worker: nat| worker < n_workers ==> #[trigger] steps_of(schedule, worker) == n_rounds
}

/// Some worker has written `key` by the end of `schedule`.
pub open spec fn written(schedule: Schedule, key: usize) -> bool {
    exists|worker: nat| key < #[trigger] steps_of(schedule, worker)
}

/// The map that holds the keys below `n` has `n` entries.
pub proof fn lemma_identity_len(n: nat)
    requires
        n <= usize::MAX + 1,
    ensures
        identity_upto(n).dom().finite(),
        identity_upto(n).len() == n,
    decreases n,
{
    if n == 0 {
        assert(identity_upto(0) =~= Contents::empty());
    } else {
        let last = (n - 1) as usize;
        lemma_identity_len((n - 1) as nat);
        assert(identity_upto(n) =~= identity_upto((n - 1) as nat).insert(last, last));
    }
}

/// A worker that makes no step of a schedule has no step counted.
proof fn lemma_absent_worker_has_no_steps(schedule: Schedule, worker: nat)
    requires
        forall|i: int| 0 <= i < schedule.len() ==> #[trigger] schedule[i] != worker,
    ensures
        steps_of(schedule, worker) == 0,
    decreases schedule.len(),
{
    if schedule.len() > 0 {
        let earlier = schedule.drop_last();
        assert forall|i: int| 0 <= i < earlier.len() implies #[trigger] earlier[i] != worker by {
            assert(earlier[i] == schedule[i]);
        }
        lemma_absent_worker_has_no_steps(earlier, worker);
        assert(schedule.last() == schedule[schedule.len() - 1]);
    }
}

/// Replaying a schedule writes `(k, k)` for exactly the keys `k` that some
/// worker has reached, and leaves the rest of `base` as it was.
proof fn lemma_replay_writes_reached_keys(base: Contents, schedule: Schedule, bound: usize)
    requires
        forall|worker: nat| #[trigger] steps_of(schedule, worker) <= bound,
    ensures
        replay(base, schedule) == Map::new(
            |k: usize| written(schedule, k) || base.contains_key(k),
            |k: usize|
                if written(schedule, k) {
                    k
                } else {
                    base[k]
                },
        ),
    decreases schedule.len(),
{
    let described = Map::new(
        |k: usize| written(schedule, k) || base.contains_key(k),
        |k: usize|
            if written(schedule, k) {
                k
            } else {
                base[k]
            },
    );
    if schedule.len() == 0 {
        assert forall|k: usize| !written(schedule, k) by {
            assert forall|worker: nat| steps_of(schedule, worker) == 0 by {}
        }
        assert(replay(base, schedule) =~= described);
    } else {
        let earlier = schedule.drop_last();
        let mover = schedule.last();
        let key = steps_of(earlier, mover) as usize;
        assert forall|worker: nat| #[trigger] steps_of(earlier, worker) <= bound by {
            assert(steps_of(earlier, worker) <= steps_of(schedule, worker));
        }
        lemma_replay_writes_reached_keys(base, earlier, bound);
        assert(steps_of(schedule, mover) == steps_of(earlier, mover) + 1);
        assert(key == steps_of(earlier, mover));
        assert forall|k: usize| written(schedule, k) <==> (written(earlier, k) || k == key) by {
            if written(earlier, k) {
                let worker = choose|worker: nat| k < #[trigger] steps_of(earlier, worker);
                assert(k < steps_of(schedule, worker));
            }
            if k == key {
                assert(k < steps_of(schedule, mover));
            }
            if written(schedule, k) {
                let worker = choose|worker: nat| k < #[trigger] steps_of(schedule, worker);
                if worker != mover {
                    assert(steps_of(schedule, worker) == steps_of(earlier, worker));
                    assert(k < steps_of(earlier, worker));
                } else if k != key {
                    assert(k < steps_of(earlier, mover));
                }
            }
        }
        assert(replay(base, schedule) =~= described);
    }
}

/// Whatever the interleaving, a whole run of at least one worker turns `base`
/// into `base` overlaid with the identity on the key range.
pub proof fn lemma_whole_run_overlays_key_range(
    base: Contents,
    schedule: Schedule,
    n_workers: nat,
    n_rounds: usize,
)
    requires
        n_workers >= 1,
        is_whole_run(schedule, n_workers, n_rounds as nat),
    ensures
        replay(base, schedule) == overlay(base, n_rounds as nat),
{
    assert forall|worker: nat| #[trigger] steps_of(schedule, worker) <= n_rounds by {
        if worker >= n_workers {
            lemma_absent_worker_has_no_steps(schedule, worker);
        }
    }
    lemma_replay_writes_reached_keys(base, schedule, n_rounds);
    assert forall|k: usize| written(schedule, k) <==> k < n_rounds by {
        if k < n_rounds {
            assert(k < steps_of(schedule, 0));
        }
    }
    assert(replay(base, schedule) =~= overlay(base, n_rounds as nat));
}

/// After all workers have written the key range `[0, n_rounds)` into a map
/// that started empty, in any interleaving, the map holds exactly `n_rounds`
/// distinct keys, each mapped to itself. At least one worker must run.
pub proof fn lemma_shared_run_leaves_identity(schedule: Schedule, n_workers: nat, n_rounds: usize)
    requires
        n_workers >= 1,
        is_whole_run(schedule, n_workers, n_rounds as nat),
    ensures
        replay(Contents::empty(), schedule) == identity_upto(n_rounds as nat),
        replay(Contents::empty(), schedule).len() == n_rounds,
        forall|k: usize| k < n_rounds ==> lookup(replay(Contents::empty(), schedule), k) == Some(k),
        forall|k: usize| k >= n_rounds ==> lookup(replay(Contents::empty(), schedule), k).is_none(),
{
    lemma_whole_run_overlays_key_range(Contents::empty(), schedule, n_workers, n_rounds);
    assert(overlay(Contents::empty(), n_rounds as nat) =~= identity_upto(n_rounds as nat));
    lemma_identity_len(n_rounds as nat);
}

/// Storing the same pair a second time changes nothing: the map, its number
/// of distinct keys and the value under the key are as after the first time.
pub proof fn lemma_insert_is_idempotent(contents: Contents, key: usize, value: usize)
    ensures
        contents.insert(key, value).insert(key, value) == contents.insert(key, value),
        contents.insert(key, value).insert(key, value).len() == contents.insert(key, value).len(),
        lookup(contents.insert(key, value).insert(key, value), key) == Some(value),
        lookup(contents.insert(key, value), key) == Some(value),
{
    assert(contents.insert(key, value).insert(key, value) =~= contents.insert(key, value));
}

/// A second pass over a key range that was already written changes nothing.
pub proof fn lemma_overlay_is_idempotent(base: Contents, n: nat)
    ensures
        overlay(overlay(base, n), n) == overlay(base, n),
        overlay(Contents::empty(), n) == identity_upto(n),
{
    assert(overlay(overlay(base, n), n) =~= overlay(base, n));
    assert(overlay(Contents::empty(), n) =~= identity_upto(n));
}

/// The pair that a worker writes in its round `round`.
pub open spec fn round_pair(round: nat) -> (usize, usize) {
    (round as usize, round as usize)
}

/// The pairs that one worker hands to the shared map in a run of `n_rounds`
/// rounds, in the order in which it hands them over.
pub open spec fn worker_pass(n_rounds: nat) -> Seq<(usize, usize)> {
    Seq::new(n_rounds, |round: int| round_pair(round as nat))
}

/// What the maps of one worker's private rounds hold, round by round: each
/// holds the pair of its round and nothing else.
pub open spec fn private_maps(n_rounds: nat) -> Seq<Contents> {
    Seq::new(
        n_rounds,
        |round: int| Contents::empty().insert(round_pair(round as nat).0, round_pair(round as nat).1),
    )
}

} // verus!
