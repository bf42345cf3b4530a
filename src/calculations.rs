//! Reward, fee and difficulty arithmetic.

use vstd::prelude::*;

use crate::block::Block;
use crate::transaction::Transaction;
use crate::transaction_pool::TransactionPool;

verus! {

/// Base units in one coin.
pub const COIN: u64 = 100_000_000;

/// Subsidy of a block before any halving: fifty coins.
pub const BASE_SUBSIDY: u64 = 5_000_000_000;

/// Number of blocks after which the subsidy halves.
pub const HALVING_INTERVAL: u64 = 210_000;

/// The fee is one part in this many of the amount (one percent).
pub const FEE_DIVISOR: u64 = 100;

/// The mining reward is the subsidy plus fees, divided by this (a factor of 0.01).
pub const REWARD_DIVISOR: u64 = 100;

/// Number of blocks between difficulty adjustments; an adjustment looks back
/// this many blocks.
pub const DIFFICULTY_ADJUSTMENT_INTERVAL: usize = 10;

/// If the last `DIFFICULTY_ADJUSTMENT_INTERVAL` blocks span less than this
/// many seconds, the difficulty rises; otherwise it falls.
pub const TARGET_WINDOW_SECS: u64 = 60;

/// The difficulty of a new chain, and the least difficulty there is.
pub const INITIAL_DIFFICULTY: u32 = 1;

/// The fee owed on a transfer of `amount` units.
pub open spec fn fee_of(amount: u64) -> nat {
    (amount / FEE_DIVISOR) as nat
}

/// `BASE_SUBSIDY` halved (rounding down) `halvings` times.
pub open spec fn subsidy_after(halvings: nat) -> nat
    decreases halvings,
{
    if halvings == 0 {
        BASE_SUBSIDY as nat
    } else {
        subsidy_after((halvings - 1) as nat) / 2
    }
}

/// The subsidy of a block at `height`.
pub open spec fn block_subsidy(height: u64) -> nat {
    subsidy_after((height / HALVING_INTERVAL) as nat)
}

/// The sum of the fees of `txs`.
pub open spec fn total_fees(txs: Seq<Transaction>) -> nat
    decreases txs.len(),
{
    if txs.len() == 0 {
        0
    } else {
        total_fees(txs.drop_last()) + txs.last().fee as nat
    }
}

/// The reward for mining the block at `height` with `txs` staged: the
/// subsidy plus all fees, divided by `REWARD_DIVISOR` (rounding down).
pub open spec fn mining_reward(height: u64, txs: Seq<Transaction>) -> nat {
    (block_subsidy(height) + total_fees(txs)) / (REWARD_DIVISOR as nat)
}

/// The difficulty after an adjustment at `current`, when the blocks looked
/// back on run from `first` to `last` (seconds): one more if they span less
/// than `TARGET_WINDOW_SECS` (staying at `u32::MAX` there), else one less,
/// but never below `INITIAL_DIFFICULTY`.
pub open spec fn next_difficulty(current: u32, first: u64, last: u64) -> u32 {
    if last - first < TARGET_WINDOW_SECS {
        if current == u32::MAX {
            current
        } else {
            (current + 1) as u32
        }
    } else if current <= INITIAL_DIFFICULTY {
        INITIAL_DIFFICULTY
    } else {
        (current - 1) as u32
    }
}

proof fn lemma_subsidy_stays_zero(i: nat, k: nat)
    requires
        subsidy_after(i) == 0,
        i <= k,
    ensures
        subsidy_after(k) == 0,
    decreases k - i,
{
    if k > i {
        lemma_subsidy_stays_zero(i, (k - 1) as nat);
    }
}

/// The fee on a transfer of `amount`: one percent, rounded down.
pub fn calculate_fee(amount: u64) -> (fee: u64)
    ensures
        fee == fee_of(amount),
{
    amount / FEE_DIVISOR
}

/// The block subsidy at `height`: `BASE_SUBSIDY`, halved once for every
/// `HALVING_INTERVAL` blocks.
pub fn calculate_block_subsidy(height: u64) -> (subsidy: u64)
    ensures
        subsidy == block_subsidy(height),
{
    let halvings: u64 = height / HALVING_INTERVAL;
    let mut subsidy: u64 = BASE_SUBSIDY;
    let mut i: u64 = 0;
    while i < halvings && subsidy > 0
        invariant
            i <= halvings,
            subsidy == subsidy_after(i as nat),
        decreases halvings - i,
    {
        subsidy = subsidy / 2;
        i = i + 1;
    }
    proof {
        if i < halvings {
            lemma_subsidy_stays_zero(i as nat, halvings as nat);
        }
    }
    subsidy
}

/// The controller's step: over a span shorter than `TARGET_WINDOW_SECS` the
/// difficulty rises by exactly one (below `u32::MAX`); over a longer span it
/// falls by one, but not below `INITIAL_DIFFICULTY`.
pub proof fn lemma_difficulty_step(current: u32, first: u64, last: u64)
    ensures
        last - first < TARGET_WINDOW_SECS && current < u32::MAX ==> next_difficulty(
            current,
            first,
            last,
        ) == current + 1,
        last - first >= TARGET_WINDOW_SECS && current > INITIAL_DIFFICULTY ==> next_difficulty(
            current,
            first,
            last,
        ) == current - 1,
        last - first >= TARGET_WINDOW_SECS && current <= INITIAL_DIFFICULTY ==> next_difficulty(
            current,
            first,
            last,
        ) == INITIAL_DIFFICULTY,
        next_difficulty(current, first, last) >= INITIAL_DIFFICULTY,
{
}

/// The reward for mining the next block at `height` over the transfers
/// staged in `pool`, or `None` if it does not fit in a `u64`.
pub fn calculate_mining_reward(height: u64, pool: &TransactionPool) -> (r: Option<u64>)
    ensures
        r == (if mining_reward(height, pool.pool@) <= u64::MAX {
            Some(mining_reward(height, pool.pool@) as u64)
        } else {
            None::<u64>
        }),
{
    let subsidy = calculate_block_subsidy(height);
    let n = pool.pool.len();
    let mut total: u128 = subsidy as u128;
    let mut i: usize = 0;
    while i < n
        invariant
            n == pool.pool@.len(),
            i <= n,
            total == subsidy + total_fees(pool.pool@.subrange(0, i as int)),
            total <= subsidy + i * 0xffff_ffff_ffff_ffff,
        decreases n - i,
    {
        assert(pool.pool@.subrange(0, i + 1).drop_last() == pool.pool@.subrange(0, i as int));
        total = total + pool.pool[i].fee as u128;
        i = i + 1;
    }
    assert(pool.pool@.subrange(0, n as int) == pool.pool@);
    let reward = total / (REWARD_DIVISOR as u128);
    if reward <= u64::MAX as u128 {
        Some(reward as u64)
    } else {
        None
    }
}

/// One step of the difficulty controller (see `next_difficulty`).
pub fn adjusted_difficulty(current: u32, first: u64, last: u64) -> (r: u32)
    ensures
        r == next_difficulty(current, first, last),
{
    if last < first || last - first < TARGET_WINDOW_SECS {
        if current == u32::MAX {
            current
        } else {
            current + 1
        }
    } else if current <= INITIAL_DIFFICULTY {
        INITIAL_DIFFICULTY
    } else {
        current - 1
    }
}

/// The difficulty for a chain loaded as `chain`: `INITIAL_DIFFICULTY` while
/// it holds fewer than `DIFFICULTY_ADJUSTMENT_INTERVAL` blocks, else the
/// last block's difficulty adjusted over the last
/// `DIFFICULTY_ADJUSTMENT_INTERVAL` blocks.
pub open spec fn difficulty_for(chain: Seq<Block>) -> u32 {
    if chain.len() < DIFFICULTY_ADJUSTMENT_INTERVAL {
        INITIAL_DIFFICULTY
    } else {
        next_difficulty(
            chain.last().difficulty,
            chain[chain.len() - DIFFICULTY_ADJUSTMENT_INTERVAL].timestamp,
            chain.last().timestamp,
        )
    }
}

/// Computes `difficulty_for(chain)`.
pub fn calculate_difficulty(chain: &Vec<Block>) -> (r: u32)
    ensures
        r == difficulty_for(chain@),
        r >= INITIAL_DIFFICULTY,
{
    let n = chain.len();
    if n < DIFFICULTY_ADJUSTMENT_INTERVAL {
        return INITIAL_DIFFICULTY;
    }
    let last = &chain[n - 1];
    let first = &chain[n - DIFFICULTY_ADJUSTMENT_INTERVAL];
    adjusted_difficulty(last.difficulty, first.timestamp, last.timestamp)
}

} // verus!
