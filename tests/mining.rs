use sha2::{Digest, Sha256};

use serenity::block::{payload_text, Block};
use serenity::chain::{Blockchain, ChainError};
use serenity::encoding::read_leading_u64;
use serenity::hashing::{
    compute_header_digest, compute_nonce_digest, is_block_sealed, target_value, Hashing,
    MiningFailure,
};
use serenity::transaction::Transaction;
use serenity::transaction_pool::TransactionPool;

fn candidate(nonce: u64) -> Block {
    Block {
        index: 7,
        timestamp: 1_700_000_000,
        data: "alice transferred 5 to bob".to_string(),
        prev_hash: "ab".repeat(32),
        hash: String::new(),
        nonce,
        transactions: vec![],
        difficulty: 0,
    }
}

fn expected_digest(b: &Block) -> Vec<u8> {
    let mut header = Vec::new();
    header.extend_from_slice(&b.index.to_le_bytes());
    header.extend_from_slice(&b.timestamp.to_le_bytes());
    header.extend_from_slice(&(b.data.len() as u64).to_le_bytes());
    header.extend_from_slice(b.data.as_bytes());
    header.extend_from_slice(b.prev_hash.as_bytes());
    let prefix = Sha256::digest(&header);
    let mut tail = prefix.to_vec();
    tail.extend_from_slice(&b.nonce.to_le_bytes());
    Sha256::digest(&tail).to_vec()
}

fn transfer(sender: &str, receiver: &str, amount: u64) -> Transaction {
    Transaction::new(sender.to_string(), receiver.to_string(), amount, 1_700_000_000, amount / 100)
}

#[test]
fn target_is_all_ones_shifted_by_difficulty() {
    assert_eq!(target_value(0), u64::MAX);
    assert_eq!(target_value(1), u64::MAX >> 1);
    assert_eq!(target_value(20), (1u64 << 44) - 1);
    assert_eq!(target_value(63), 1);
    assert_eq!(target_value(64), 0);
    for d in 1..64u32 {
        assert!(target_value(d + 1) < target_value(d));
        assert!(target_value(d) > 0);
    }
}

#[test]
fn hash_is_hex_of_the_documented_digest() {
    let b = candidate(42);
    let expected = expected_digest(&b);
    let hasher = Hashing::new(b.clone());
    assert_eq!(hasher.calculate_hash(), hex::encode(&expected));
    assert_eq!(compute_header_digest(&b).len(), 32);
    let header = compute_header_digest(&b);
    assert_eq!(compute_nonce_digest(&header, 42), expected);
    let other = Hashing::new(candidate(43));
    assert_ne!(other.calculate_hash(), hasher.calculate_hash());
}

#[test]
fn leading_bytes_read_big_endian() {
    let bytes = [0x01, 0x02, 0x03, 0x04, 0x05, 0x06, 0x07, 0x08, 0xff];
    assert_eq!(read_leading_u64(&bytes), 0x0102_0304_0506_0708);
}

#[test]
fn one_worker_and_many_workers_both_seal() {
    for workers in [1usize, 4] {
        let mut hasher = Hashing::new(candidate(0));
        assert_eq!(hasher.mine_block_with_workers(8, workers), Ok(()));
        let mined = &hasher.block;
        assert_eq!(mined.difficulty, 0);
        assert_eq!(mined.index, 7);
        assert_eq!(mined.data, "alice transferred 5 to bob");
        assert!(is_block_sealed(mined));
        let digest = expected_digest(mined);
        assert!(read_leading_u64(&digest) <= target_value(8));
        assert_eq!(mined.hash, hex::encode(&digest));
        assert_eq!(Hashing::new(mined.clone()).calculate_hash(), mined.hash);
    }
}

#[test]
fn default_engine_seals() {
    let mut hasher = Hashing::new(candidate(99));
    assert_eq!(hasher.mine_block(6), Ok(()));
    assert!(is_block_sealed(&hasher.block));
}

#[test]
fn no_workers_still_finds_a_nonce() {
    let mut hasher = Hashing::new(candidate(5));
    assert_eq!(hasher.mine_block_with_workers(4, 0), Ok(()));
    assert!(hasher.block.nonce >= 5);
    assert!(read_leading_u64(&expected_digest(&hasher.block)) <= target_value(4));
}

#[test]
fn raised_cancel_flag_stops_the_search() {
    let cancel = std::sync::atomic::AtomicBool::new(true);
    let mut hasher = Hashing::new(candidate(5));
    assert_eq!(hasher.mine_block_cancellable(4, 2, &cancel), Err(MiningFailure));
    assert!(hasher.block.hash.is_empty());
}

#[test]
fn strided_search_takes_the_first_good_nonce() {
    let mut hasher = Hashing::new(candidate(0));
    assert_eq!(hasher.mine_block_parallel(6, 10, 3), Ok(()));
    let found = hasher.block.nonce;
    assert_eq!((found - 10) % 3, 0);
    assert!(is_block_sealed(&hasher.block));
    let mut n = 10;
    while n < found {
        let b = candidate(n);
        assert!(read_leading_u64(&expected_digest(&b)) > target_value(6));
        n += 3;
    }
}

#[test]
fn strided_search_fails_past_the_last_nonce() {
    let mut hasher = Hashing::new(candidate(0));
    assert_eq!(hasher.mine_block_parallel(64, u64::MAX - 2, 5), Err(MiningFailure));
    assert_eq!(hasher.block.nonce, 0);
}

#[test]
fn accept_nonce_checks_the_target() {
    let mut hasher = Hashing::new(candidate(0));
    assert_eq!(hasher.accept_nonce(3, None), Err(MiningFailure));
    assert_eq!(hasher.accept_nonce(0, Some(17)), Ok(()));
    assert_eq!(hasher.block.nonce, 17);
    assert!(is_block_sealed(&hasher.block));
    let mut strict = Hashing::new(candidate(0));
    assert_eq!(strict.accept_nonce(64, Some(17)), Err(MiningFailure));
    assert!(strict.block.hash.is_empty());
}

#[test]
fn engine_keeps_the_block_difficulty() {
    let mut b = candidate(3);
    b.difficulty = 9;
    let mut hasher = Hashing::new(b);
    assert_eq!(hasher.mine_block_with_workers(5, 3), Ok(()));
    assert_eq!(hasher.block.difficulty, 9);
    let digest = expected_digest(&hasher.block);
    assert!(read_leading_u64(&digest) <= target_value(5));
    assert_eq!(hasher.block.hash, hex::encode(&digest));
}

#[test]
fn tampered_block_is_not_sealed() {
    let mut hasher = Hashing::new(candidate(0));
    assert_eq!(hasher.mine_block_with_workers(4, 2), Ok(()));
    let mut b = hasher.block.clone();
    b.data.push('!');
    assert!(!is_block_sealed(&b));
}

#[test]
fn genesis_block_is_fixed_and_unsearched() {
    let g = Blockchain::create_genesis_block(1_600_000_000);
    assert_eq!(g.index, 0);
    assert_eq!(g.prev_hash, "0");
    assert_eq!(g.data, "Genesis Block");
    assert!(g.transactions.is_empty());
    assert_eq!(g.nonce, 0);
    assert_eq!(g.difficulty, 1);
    assert_eq!(g.hash, hex::encode(expected_digest(&g)));
    let chain = Blockchain::new(vec![], 1_600_000_000).unwrap();
    assert_eq!(chain.chain.len(), 1);
    assert_eq!(chain.chain[0].hash, g.hash);
    assert_eq!(chain.difficulty, 1);
}

#[test]
fn append_rejects_broken_linkage() {
    let mut chain = Blockchain::new(vec![], 1_600_000_000).unwrap();
    let tail_hash = chain.chain[0].hash.clone();
    let mut bad_hash = candidate(0);
    bad_hash.index = 1;
    bad_hash.prev_hash = "f".repeat(64);
    assert_eq!(chain.add_block(bad_hash), Err(ChainError::LinkageViolation));
    let mut bad_index = candidate(0);
    bad_index.index = 2;
    bad_index.prev_hash = tail_hash.clone();
    assert_eq!(chain.add_block(bad_index), Err(ChainError::LinkageViolation));
    assert_eq!(chain.chain.len(), 1);
    let mut good = candidate(0);
    good.index = 1;
    good.prev_hash = tail_hash;
    assert_eq!(chain.add_block(good), Ok(()));
    assert_eq!(chain.chain.len(), 2);
}

#[test]
fn loading_checks_linkage() {
    let g = Blockchain::create_genesis_block(1);
    let mut next = candidate(0);
    next.index = 1;
    next.prev_hash = g.hash.clone();
    let chain = Blockchain::new(vec![g.clone(), next.clone()], 5).unwrap();
    assert_eq!(chain.chain.len(), 2);
    let mut broken = next.clone();
    broken.prev_hash = "0".to_string();
    assert_eq!(
        Blockchain::new(vec![g.clone(), broken], 5).err(),
        Some(ChainError::LinkageViolation)
    );
    let mut base = Blockchain::new(vec![], 1).unwrap();
    assert_eq!(base.load_blocks(vec![next.clone()]), Ok(()));
    assert_eq!(base.chain.len(), 2);
    assert_eq!(base.load_blocks(vec![next]), Err(ChainError::LinkageViolation));
    assert_eq!(base.chain.len(), 2);
}

#[test]
fn mining_folds_staged_transfers_and_reward_into_the_block() {
    let mut chain = Blockchain::new(vec![], 1_600_000_000).unwrap();
    let mut pool = TransactionPool::new();
    let a = transfer("alice", "bob", 1000);
    let b = transfer("bob", "carol", 500);
    pool.add_transaction(a.clone());
    pool.add_transaction(b.clone());
    pool.add_transaction(a.clone());
    let staged = pool.get_transactions();
    let result = chain.mine_block_at(&mut pool, "miner", 1_600_000_100, 0);
    assert_eq!(result, Ok(1));
    assert!(pool.get_transactions().is_empty());
    assert_eq!(chain.chain.len(), 2);
    let mined = &chain.chain[1];
    assert_eq!(mined.index, 1);
    assert_eq!(mined.prev_hash, chain.chain[0].hash);
    assert_eq!(mined.timestamp, 1_600_000_100);
    assert_eq!(mined.transactions.len(), staged.len() + 1);
    assert_eq!(mined.transactions[..3].to_vec(), staged);
    let reward = &mined.transactions[3];
    assert_eq!(reward.sender, "block_reward");
    assert_eq!(reward.receiver, "miner");
    // height 1: (5_000_000_000 + 10 + 5 + 10) / 100
    assert_eq!(reward.amount, 50_000_000);
    assert_eq!(reward.fee, 500_000);
    assert_eq!(reward.timestamp, 1_600_000_100);
    assert_eq!(mined.data, payload_text(&mined.transactions));
    assert!(mined.data.starts_with("alice transferred 1000 to bob\nbob transferred 500 to carol\n"));
    assert!(mined.data.ends_with("\nblock_reward transferred 50000000 to miner"));
    assert!(is_block_sealed(mined));
}

#[test]
fn tenth_block_adjusts_difficulty() {
    let mut chain = Blockchain::new(vec![], 1_600_000_000).unwrap();
    let mut pool = TransactionPool::new();
    for i in 1..9u64 {
        assert_eq!(chain.mine_block_at(&mut pool, "m", 1_600_000_000 + i, i), Ok(1));
    }
    assert_eq!(chain.chain.len(), 9);
    assert_eq!(chain.mine_block_at(&mut pool, "m", 1_600_000_009, 9), Ok(2));
    assert_eq!(chain.difficulty, 2);
    for i in 10..19u64 {
        assert_eq!(chain.mine_block_at(&mut pool, "m", 1_600_000_000 + 100 * i, i), Ok(2));
    }
    assert_eq!(chain.mine_block_at(&mut pool, "m", 1_600_002_000, 19), Ok(1));
    for i in 1..chain.chain.len() {
        assert_eq!(chain.chain[i].prev_hash, chain.chain[i - 1].hash);
        assert_eq!(chain.chain[i].index, chain.chain[i - 1].index + 1);
    }
}

#[test]
fn full_index_and_oversized_reward_are_refused() {
    let mut last = Blockchain::create_genesis_block(1);
    last.index = u32::MAX;
    let mut chain = Blockchain::new(vec![last], 1).unwrap();
    let mut pool = TransactionPool::new();
    assert_eq!(chain.mine_block_at(&mut pool, "m", 2, 0), Err(ChainError::IndexExhausted));

    let mut chain = Blockchain::new(vec![], 1).unwrap();
    for _ in 0..200 {
        pool.add_transaction(Transaction::new("a".into(), "b".into(), 0, 1, u64::MAX));
    }
    assert_eq!(chain.mine_block_at(&mut pool, "m", 2, 0), Err(ChainError::RewardOverflow));
    assert_eq!(pool.get_transactions().len(), 200);
    assert_eq!(chain.chain.len(), 1);
}

#[test]
fn mining_from_a_random_nonce() {
    let mut chain = Blockchain::new(vec![], 10).unwrap();
    let mut pool = TransactionPool::new();
    pool.add_transaction(transfer("a", "b", 10));
    assert_eq!(chain.mine_block(&mut pool, "m", 20), Ok(1));
    assert_eq!(chain.chain.len(), 2);
    assert_eq!(chain.chain[1].timestamp, 20);
    assert_eq!(chain.chain[1].prev_hash, chain.chain[0].hash);
    assert_eq!(chain.chain[1].difficulty, 1);
    assert!(is_block_sealed(&chain.chain[1]));
    assert!(pool.get_transactions().is_empty());
    let fresh = Block::new(3, "x".to_string(), "y".to_string(), 55);
    assert_eq!(fresh.index, 3);
    assert_eq!(fresh.timestamp, 55);
    assert!(fresh.hash.is_empty());
}
