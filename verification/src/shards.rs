//! The number of shards of a sharded map: derived once from the hardware
//! parallelism and handed to whoever creates a map.

use vstd::prelude::*;
use vstd::arithmetic::power2::is_pow2;

verus! {

/// Shards per unit of hardware parallelism, before rounding up.
pub const SHARDS_PER_THREAD: usize = 4;

/// The most shards that a map is ever given. A shard takes at most 256 bytes,
/// and a table of shards must stay below `isize::MAX` bytes to be allocated.
pub const MAX_SHARDS: usize = usize::MAX / 512;

/// `amount` is the least power of two that is at least `wanted`.
pub open spec fn is_least_power_of_two_from(amount: int, wanted: int) -> bool {
    &&& is_pow2(amount)
    &&& wanted <= amount
    &&& forall|other: int| #[trigger] is_pow2(other) && wanted <= other ==> amount <= other
}

/// Every power of two that is at least `wanted` is more than `MAX_SHARDS`.
pub open spec fn no_power_of_two_from(wanted: int) -> bool {
    forall|other: int| #[trigger] is_pow2(other) && wanted <= other ==> MAX_SHARDS < other
}

/// Between a power of two and its double lies no other power of two.
pub proof fn lemma_powers_of_two_are_spread(low: int, high: int)
    requires
        is_pow2(low),
        is_pow2(high),
        low < high,
    ensures
        2 * low <= high,
    decreases low,
{
    reveal(is_pow2);
    if low > 1 {
        lemma_powers_of_two_are_spread(low / 2, high / 2);
    }
}

/// A validated shard count: a power of two greater than one and at most
/// `MAX_SHARDS`.
#[derive(Clone, Copy, Debug)]
pub struct ShardAmount {
    count: usize,
}

impl View for ShardAmount {
    type V = int;

    closed spec fn view(&self) -> int {
        self.count as int
    }
}

impl ShardAmount {
    #[verifier::type_invariant]
    spec fn valid(self) -> bool {
        self.count > 1 && self.count <= MAX_SHARDS && is_pow2(self.count as int)
    }

    /// The shard count for a machine that runs `parallelism` threads at once:
    /// four shards per thread, rounded up to a power of two. There is none for
    /// a machine without parallelism, nor where the rounded count is more than
    /// `MAX_SHARDS`.
    pub fn for_parallelism(parallelism: usize) -> (shards: Option<ShardAmount>)
        ensures
            match shards {
                Some(amount) => parallelism >= 1 && amount@ <= MAX_SHARDS
                    && is_least_power_of_two_from(amount@, SHARDS_PER_THREAD * parallelism),
                None => parallelism == 0 || no_power_of_two_from(SHARDS_PER_THREAD * parallelism),
            },
    {
        if parallelism == 0 {
            return None;
        }
        let wanted: usize = match parallelism.checked_mul(SHARDS_PER_THREAD) {
            Some(product) => product,
            None => {
                proof {
                    assert forall|other: int| #[trigger]
                        is_pow2(other) && SHARDS_PER_THREAD * parallelism <= other implies MAX_SHARDS
                        < other by {}
                }
                return None;
            },
        };
        let mut count: usize = 1;
        proof {
            reveal(is_pow2);
        }
        while count < wanted
            invariant
                parallelism >= 1,
                wanted == SHARDS_PER_THREAD * parallelism,
                1 <= count <= MAX_SHARDS,
                is_pow2(count as int),
                forall|other: int| #[trigger] is_pow2(other) && wanted <= other ==> count <= other,
            decreases usize::MAX - count,
        {
            if count > MAX_SHARDS / 2 {
                proof {
                    assert forall|other: int| #[trigger] is_pow2(other) && wanted <= other implies MAX_SHARDS
                        < other by {
                        lemma_powers_of_two_are_spread(count as int, other);
                    }
                }
                return None;
            }
            proof {
                assert forall|other: int| #[trigger] is_pow2(other) && wanted <= other implies 2 * count
                    <= other by {
                    lemma_powers_of_two_are_spread(count as int, other);
                }
                reveal(is_pow2);
            }
            count = 2 * count;
        }
        Some(ShardAmount { count })
    }

    /// The shard count as a number.
    pub fn get(&self) -> (count: usize)
        ensures
            count == self@,
            1 < count <= MAX_SHARDS,
            is_pow2(count as int),
    {
        proof {
            use_type_invariant(self);
        }
        self.count
    }
}

} // verus!
