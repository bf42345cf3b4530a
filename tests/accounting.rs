use serenity::calculations::{
    adjusted_difficulty, calculate_block_subsidy, calculate_difficulty, calculate_fee,
    calculate_mining_reward, BASE_SUBSIDY, COIN,
};
use serenity::block::Block;
use serenity::transaction::{Transaction, TransactionID};
use serenity::transaction_pool::TransactionPool;

fn transfer(sender: &str, receiver: &str, amount: u64, fee: u64) -> Transaction {
    Transaction::new(sender.to_string(), receiver.to_string(), amount, 1_700_000_000, fee)
}

fn block_at(index: u32, timestamp: u64, difficulty: u32) -> Block {
    Block {
        index,
        timestamp,
        data: String::new(),
        prev_hash: String::new(),
        hash: String::new(),
        nonce: 0,
        transactions: vec![],
        difficulty,
    }
}

#[test]
fn fee_is_one_percent_rounded_down() {
    assert_eq!(calculate_fee(250), 2);
    assert_eq!(calculate_fee(99), 0);
    assert_eq!(calculate_fee(COIN), 1_000_000);
}

#[test]
fn subsidy_halves_every_interval() {
    assert_eq!(calculate_block_subsidy(0), BASE_SUBSIDY);
    assert_eq!(calculate_block_subsidy(209_999), 5_000_000_000);
    assert_eq!(calculate_block_subsidy(210_000), 2_500_000_000);
    assert_eq!(calculate_block_subsidy(420_000), 1_250_000_000);
    assert_eq!(calculate_block_subsidy(u64::MAX), 0);
}

#[test]
fn reward_at_height_zero_with_nothing_staged_is_half_a_coin() {
    let pool = TransactionPool::new();
    assert_eq!(calculate_mining_reward(0, &pool), Some(COIN / 2));
    assert_eq!(calculate_mining_reward(0, &pool), Some(50_000_000));
}

#[test]
fn reward_includes_staged_fees() {
    let mut pool = TransactionPool::new();
    pool.add_transaction(transfer("alice", "bob", 1000, 300));
    pool.add_transaction(transfer("bob", "carol", 1000, 700));
    // (5_000_000_000 + 1_000) / 100
    assert_eq!(calculate_mining_reward(0, &pool), Some(50_000_010));
}

#[test]
fn reward_that_does_not_fit_is_none() {
    let mut pool = TransactionPool::new();
    for _ in 0..200 {
        pool.add_transaction(transfer("a", "b", 0, u64::MAX));
    }
    assert_eq!(calculate_mining_reward(0, &pool), None);
}

#[test]
fn controller_steps_by_one() {
    assert_eq!(adjusted_difficulty(3, 100, 159), 4);
    assert_eq!(adjusted_difficulty(3, 100, 160), 2);
    assert_eq!(adjusted_difficulty(1, 100, 1000), 1);
    assert_eq!(adjusted_difficulty(u32::MAX, 100, 100), u32::MAX);
    assert_eq!(adjusted_difficulty(5, 200, 100), 6);
}

#[test]
fn loaded_difficulty_is_initial_for_short_chains() {
    let chain: Vec<Block> = (0..9).map(|i| block_at(i, 1000 + i as u64, 7)).collect();
    assert_eq!(calculate_difficulty(&chain), 1);
}

#[test]
fn loaded_difficulty_follows_the_last_ten_blocks() {
    let fast: Vec<Block> = (0..12).map(|i| block_at(i, 1000 + i as u64, 7)).collect();
    assert_eq!(calculate_difficulty(&fast), 8);
    let slow: Vec<Block> = (0..12).map(|i| block_at(i, 1000 + 100 * i as u64, 7)).collect();
    assert_eq!(calculate_difficulty(&slow), 6);
    let floor: Vec<Block> = (0..10).map(|i| block_at(i, 1000 + 100 * i as u64, 1)).collect();
    assert_eq!(calculate_difficulty(&floor), 1);
}

#[test]
fn transfer_line_and_bytes() {
    let t = transfer("alice", "bob", 100, 1);
    assert_eq!(t.to_string(), "alice transferred 100 to bob");
    assert_eq!(t.to_bytes(), b"alice transferred 100 to bob".to_vec());
    let zero = transfer("x", "y", 0, 0);
    assert_eq!(zero.to_string(), "x transferred 0 to y");
}

#[test]
fn transfers_compare_by_all_fields() {
    let t = transfer("alice", "bob", 100, 1);
    assert!(t == t.clone());
    assert!(t != transfer("alice", "bob", 100, 2));
    assert!(t != transfer("alice", "carol", 100, 1));
}

#[test]
fn transaction_id_is_zero_and_prints_as_hex() {
    let id = TransactionID::new();
    assert_eq!(id.as_hex(), "0".repeat(64));
    assert_eq!(id, TransactionID::default());
}

#[test]
fn staging_keeps_order_and_duplicates() {
    let mut pool = TransactionPool::new();
    let a = transfer("a", "b", 1, 0);
    let b = transfer("b", "c", 2, 0);
    pool.add_transaction(a.clone());
    pool.add_transaction(b.clone());
    pool.add_transaction(a.clone());
    assert_eq!(pool.get_transactions(), vec![a.clone(), b.clone(), a.clone()]);
    assert_eq!(pool.pool.len(), 3);
}

#[test]
fn staging_remove_takes_out_every_equal_record() {
    let mut pool = TransactionPool::new();
    let a = transfer("a", "b", 1, 0);
    let b = transfer("b", "c", 2, 0);
    pool.add_transaction(a.clone());
    pool.add_transaction(b.clone());
    pool.add_transaction(a.clone());
    pool.remove_transaction(&a);
    assert_eq!(pool.get_transactions(), vec![b.clone()]);
    pool.remove_transaction(&transfer("z", "z", 9, 9));
    assert_eq!(pool.get_transactions(), vec![b]);
}

#[test]
fn staging_drain_and_clear() {
    let mut pool = TransactionPool::new();
    let a = transfer("a", "b", 1, 0);
    let b = transfer("b", "c", 2, 0);
    pool.add_transaction(a.clone());
    pool.add_transaction(b.clone());
    assert_eq!(pool.drain_all(), vec![a.clone(), b]);
    assert!(pool.get_transactions().is_empty());
    pool.add_transaction(a);
    pool.clear_pool();
    assert!(pool.pool.is_empty());
}
