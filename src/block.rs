//! Block records.

use vstd::prelude::*;
use vstd::string::StringExecFns;

use crate::transaction::{line_of, views_of, Transaction, TransferView};

verus! {

/// Relies on `rand::random`: a value drawn from the thread-local generator.
/// Nothing is promised of the value.
pub assume_specification<T>[ rand::random::<T> ]() -> (r: T)
    where
        rand::distributions::Standard: rand::distributions::Distribution<T>,
;

/// One block of the ledger.
///
/// `data` is the text that the hash commits to (for a mined block, one line
/// per transfer in `transactions`); `hash` is empty until the block is
/// mined; `difficulty` is the difficulty the block was mined at.
#[derive(Debug)]
pub struct Block {
    pub index: u32,
    pub timestamp: u64,
    pub data: String,
    pub prev_hash: String,
    pub hash: String,
    pub nonce: u64,
    pub transactions: Vec<Transaction>,
    pub difficulty: u32,
}

/// What a block holds, as plain values.
pub struct BlockView {
    pub index: u32,
    pub timestamp: u64,
    pub data: Seq<char>,
    pub prev_hash: Seq<char>,
    pub hash: Seq<char>,
    pub nonce: u64,
    pub transactions: Seq<Transaction>,
    pub difficulty: u32,
}

impl View for Block {
    type V = BlockView;

    open spec fn view(&self) -> BlockView {
        BlockView {
            index: self.index,
            timestamp: self.timestamp,
            data: self.data@,
            prev_hash: self.prev_hash@,
            hash: self.hash@,
            nonce: self.nonce,
            transactions: self.transactions@,
            difficulty: self.difficulty,
        }
    }
}

impl Clone for Block {
    fn clone(&self) -> (r: Self)
        ensures
            r@ == self@,
    {
        let transactions = self.transactions.clone();
        assert(transactions@ =~= self.transactions@);
        Block {
            index: self.index,
            timestamp: self.timestamp,
            data: self.data.clone(),
            prev_hash: self.prev_hash.clone(),
            hash: self.hash.clone(),
            nonce: self.nonce,
            transactions,
            difficulty: self.difficulty,
        }
    }
}

impl Block {
    /// An unmined block with no transfers, stamped `timestamp`, with a random
    /// starting nonce.
    pub fn new(index: u32, data: String, prev_hash: String, timestamp: u64) -> (r: Block)
        ensures
            r.index == index,
            r.timestamp == timestamp,
            r.data == data,
            r.prev_hash == prev_hash,
            r.hash@ == Seq::<char>::empty(),
            r.transactions@ == Seq::<Transaction>::empty(),
            r.difficulty == 0,
    {
        let start_nonce: u64 = rand::random::<u64>();
        Block {
            index,
            timestamp,
            data,
            prev_hash,
            hash: String::new(),
            nonce: start_nonce,
            transactions: Vec::new(),
            difficulty: 0,
        }
    }
}

/// The text a block's hash commits to: one line per transfer (see
/// `line_of`), separated by newlines.
pub open spec fn payload_of(txs: Seq<TransferView>) -> Seq<char>
    decreases txs.len(),
{
    if txs.len() == 0 {
        Seq::empty()
    } else if txs.len() == 1 {
        line_of(txs[0])
    } else {
        payload_of(txs.drop_last()) + "\n"@ + line_of(txs.last())
    }
}

/// Builds the payload text of `txs` (see `payload_of`).
pub fn payload_text(txs: &Vec<Transaction>) -> (r: String)
    ensures
        r@ == payload_of(views_of(txs@)),
{
    let mut text = String::new();
    let n = txs.len();
    let mut i: usize = 0;
    while i < n
        invariant
            n == txs@.len(),
            i <= n,
            text@ == payload_of(views_of(txs@.subrange(0, i as int))),
        decreases n - i,
    {
        let ghost prefix = txs@.subrange(0, i + 1);
        assert(views_of(prefix).drop_last() =~= views_of(txs@.subrange(0, i as int)));
        assert(views_of(prefix).last() == txs@[i as int]@);
        let line = txs[i].to_string();
        if i == 0 {
            text = line;
        } else {
            text.append("\n");
            text.append(line.as_str());
        }
        i = i + 1;
    }
    assert(txs@.subrange(0, n as int) == txs@);
    text
}

/// Length in bytes of a block identifier (a 256-bit hash).
pub const BLOCK_ID_LENGTH: usize = 32;

/// A 256-bit block identifier.
#[derive(Clone, Copy, Default, Eq, Hash, PartialEq)]
pub struct BlockID([u8; BLOCK_ID_LENGTH]);

} // verus!
