//! The chain of accepted blocks, block assembly, and the mining step that
//! ties staging, proof of work and difficulty adjustment together.

use vstd::prelude::*;
use vstd::string::StringExecFns;

use crate::block::{payload_of, payload_text, Block, BlockView};
use crate::calculations::{
    calculate_difficulty,
    calculate_fee,
    calculate_mining_reward,
    adjusted_difficulty,
    difficulty_for,
    mining_reward,
    next_difficulty,
    DIFFICULTY_ADJUSTMENT_INTERVAL,
    FEE_DIVISOR,
    INITIAL_DIFFICULTY,
};
use crate::encoding::{hex_encode, hex_of};
use crate::hashing::{
    block_digest,
    compute_header_digest,
    compute_nonce_digest,
    header_digest_of,
    is_sealed,
    no_nonce_from,
    Hashing,
};
use crate::transaction::{views_of, Transaction, TransferView};
use crate::transaction_pool::TransactionPool;

verus! {

/// Why a chain operation was refused.
#[derive(Debug, PartialEq, Eq, Structural)]
pub enum ChainError {
    /// The block's `prev_hash` or `index` does not continue the chain.
    LinkageViolation,
    /// The proof-of-work search ended without a usable nonce.
    MiningFailure,
    /// The mining reward does not fit in a `u64`.
    RewardOverflow,
    /// The chain's last block already has the largest index there is.
    IndexExhausted,
}

/// `child` continues `parent`: it names `parent`'s hash and the next index.
pub open spec fn linked(parent: BlockView, child: BlockView) -> bool {
    &&& child.prev_hash == parent.hash
    &&& child.index == parent.index + 1
}

/// Each block after the first continues the one before it.
pub open spec fn chain_linked(blocks: Seq<Block>) -> bool {
    forall|i: int| 0 < i < blocks.len() ==> #[trigger] linked(blocks[i - 1]@, blocks[i]@)
}

/// The genesis block stamped at `timestamp`: index 0, previous hash `"0"`,
/// no transfers, nonce 0, the initial difficulty, and the hash of its digest
/// at that nonce (no search).
pub open spec fn is_genesis(b: BlockView, timestamp: u64) -> bool {
    &&& b.index == 0
    &&& b.timestamp == timestamp
    &&& b.data == "Genesis Block"@
    &&& b.prev_hash == "0"@
    &&& b.transactions.len() == 0
    &&& b.nonce == 0
    &&& b.difficulty == INITIAL_DIFFICULTY
    &&& b.hash == hex_of(block_digest(b))
}

/// The reward transfer to `miner` of `amount`, made at `timestamp`.
pub open spec fn reward_transfer(miner: Seq<char>, amount: u64, timestamp: u64) -> TransferView {
    TransferView {
        sender: "block_reward"@,
        receiver: miner,
        amount,
        timestamp,
        fee: (amount / FEE_DIVISOR) as u64,
    }
}

/// The payload of the next block: the staged transfers followed by the
/// reward of `reward` to `miner` made at `timestamp`.
pub open spec fn next_payload(staged: Seq<Transaction>, miner: Seq<char>, reward: u64, timestamp: u64) -> Seq<char> {
    payload_of(views_of(staged).push(reward_transfer(miner, reward, timestamp)))
}

/// `after` and `after_pool` are what mining the next block leaves, from
/// `before` with `staged` transfers, paying `miner`, at `timestamp`:
/// - one block more, the earlier blocks unchanged, the new one continuing
///   the old last block and stamped `timestamp`;
/// - its transfers are the staged ones, in order, followed by the reward of
///   `mining_reward` at the old length, from `"block_reward"` to `miner`;
/// - its data is the payload of those transfers, its difficulty the chain's,
///   and it is sealed at that difficulty;
/// - staging is empty, and the difficulty is adjusted when the new length is
///   a multiple of `DIFFICULTY_ADJUSTMENT_INTERVAL`.
pub open spec fn mined_next(
    before: Blockchain,
    after: Blockchain,
    staged: Seq<Transaction>,
    after_pool: Seq<Transaction>,
    miner: Seq<char>,
    timestamp: u64,
) -> bool {
    let b = after.chain@.last()@;
    let reward = mining_reward(before.chain@.len() as u64, staged);
    let k = after.chain@.len();
    &&& k == before.chain@.len() + 1
    &&& after.chain@.drop_last() == before.chain@
    &&& linked(before.tail(), b)
    &&& b.timestamp == timestamp
    &&& b.transactions.drop_last() == staged
    &&& b.transactions.len() == staged.len() + 1
    &&& b.transactions.last()@ == reward_transfer(miner, reward as u64, timestamp)
    &&& b.data == payload_of(views_of(b.transactions))
    &&& b.data == next_payload(staged, miner, reward as u64, timestamp)
    &&& b.difficulty == before.difficulty
    &&& is_sealed(b)
    &&& after_pool.len() == 0
    &&& after.difficulty == if k % (DIFFICULTY_ADJUSTMENT_INTERVAL as nat) == 0 {
        next_difficulty(
            before.difficulty,
            after.chain@[k - DIFFICULTY_ADJUSTMENT_INTERVAL].timestamp,
            timestamp,
        )
    } else {
        before.difficulty
    }
}

/// No nonce from `start` up seals the next block that `before` would
/// assemble from `staged`, paying `miner`, at `timestamp`.
pub open spec fn search_exhausted(
    before: Blockchain,
    staged: Seq<Transaction>,
    miner: Seq<char>,
    timestamp: u64,
    start: u64,
) -> bool {
    let tail = before.tail();
    let reward = mining_reward(before.chain@.len() as u64, staged);
    no_nonce_from(
        header_digest_of(
            (tail.index + 1) as u32,
            timestamp,
            next_payload(staged, miner, reward as u64, timestamp),
            tail.hash,
        ),
        start,
        before.difficulty,
    )
}

/// Appending a block that continues the last one keeps a chain linked.
pub proof fn lemma_append_keeps_linkage(blocks: Seq<Block>, b: Block)
    requires
        chain_linked(blocks),
        blocks.len() >= 1,
        linked(blocks.last()@, b@),
    ensures
        chain_linked(blocks.push(b)),
{
    let s = blocks.push(b);
    assert forall|i: int| 0 < i < s.len() implies #[trigger] linked(s[i - 1]@, s[i]@) by {
        if i < blocks.len() {
            assert(linked(blocks[i - 1]@, blocks[i]@));
        }
    }
}

/// A linked chain followed by `b` is linked exactly when `b` is linked and,
/// if it is not empty, its first block continues the chain's last.
pub proof fn lemma_concat_linkage(a: Seq<Block>, b: Seq<Block>)
    requires
        chain_linked(a),
        a.len() >= 1,
    ensures
        chain_linked(a + b) <==> (chain_linked(b) && (b.len() > 0 ==> linked(a.last()@, b[0]@))),
{
    let s = a + b;
    if chain_linked(s) {
        assert forall|j: int| 0 < j < b.len() implies #[trigger] linked(b[j - 1]@, b[j]@) by {
            assert(linked(s[a.len() + j - 1]@, s[a.len() + j]@));
        }
        if b.len() > 0 {
            assert(linked(s[a.len() - 1]@, s[a.len() as int]@));
        }
    }
    if chain_linked(b) && (b.len() > 0 ==> linked(a.last()@, b[0]@)) {
        assert forall|i: int| 0 < i < s.len() implies #[trigger] linked(s[i - 1]@, s[i]@) by {
            if i < a.len() {
                assert(linked(a[i - 1]@, a[i]@));
            } else if i > a.len() {
                assert(linked(b[i - a.len() - 1]@, b[i - a.len()]@));
            }
        }
    }
}

/// Whether `blocks` is linked (see `chain_linked`).
pub fn check_linked(blocks: &Vec<Block>) -> (r: bool)
    ensures
        r == chain_linked(blocks@),
{
    let n = blocks.len();
    let mut i: usize = 1;
    while i < n
        invariant
            n == blocks@.len(),
            1 <= i,
            forall|j: int| 0 < j < i && j < n ==> #[trigger] linked(blocks@[j - 1]@, blocks@[j]@),
        decreases n - i,
    {
        let parent = &blocks[i - 1];
        let child = &blocks[i];
        if !(child.prev_hash == parent.hash) || parent.index == u32::MAX || child.index
            != parent.index + 1 {
            assert(!linked(blocks@[i - 1]@, blocks@[i as int]@));
            return false;
        }
        i = i + 1;
    }
    true
}

/// The ledger: accepted blocks, oldest first, and the difficulty the next
/// block is mined at.
#[derive(Debug)]
pub struct Blockchain {
    pub chain: Vec<Block>,
    pub difficulty: u32,
}

impl Blockchain {
    /// The chain is never empty, is linked, and its difficulty is at least
    /// `INITIAL_DIFFICULTY`.
    pub open spec fn wf(&self) -> bool {
        &&& self.chain@.len() >= 1
        &&& chain_linked(self.chain@)
        &&& self.difficulty >= INITIAL_DIFFICULTY
    }

    /// The last block.
    pub open spec fn tail(&self) -> BlockView {
        self.chain@.last()@
    }

    /// A chain of the stored `blocks`, or of a genesis block stamped at
    /// `genesis_timestamp` if there are none. Stored blocks must be linked.
    /// The difficulty is `difficulty_for` the blocks.
    pub fn new(blocks: Vec<Block>, genesis_timestamp: u64) -> (r: Result<
        Blockchain,
        ChainError,
    >)
        ensures
            blocks@.len() == 0 ==> r is Ok,
            blocks@.len() == 0 && r is Ok ==> r->Ok_0.chain@.len() == 1 && is_genesis(
                r->Ok_0.chain@[0]@,
                genesis_timestamp,
            ) && r->Ok_0.difficulty == INITIAL_DIFFICULTY,
            blocks@.len() > 0 ==> (r is Ok <==> chain_linked(blocks@)),
            blocks@.len() > 0 && r is Ok ==> r->Ok_0.chain@ == blocks@ && r->Ok_0.difficulty
                == difficulty_for(blocks@),
            r is Ok ==> r->Ok_0.wf(),
            r is Err ==> r->Err_0 == ChainError::LinkageViolation,
    {
        if blocks.len() == 0 {
            let genesis = Blockchain::create_genesis_block(genesis_timestamp);
            let mut chain: Vec<Block> = Vec::new();
            chain.push(genesis);
            return Ok(Blockchain { chain, difficulty: INITIAL_DIFFICULTY });
        }
        if !check_linked(&blocks) {
            return Err(ChainError::LinkageViolation);
        }
        let difficulty = calculate_difficulty(&blocks);
        Ok(Blockchain { chain: blocks, difficulty })
    }

    /// The genesis block stamped at `timestamp` (see `is_genesis`); its hash
    /// is the plain digest at nonce 0, with no search.
    pub fn create_genesis_block(timestamp: u64) -> (r: Block)
        ensures
            is_genesis(r@, timestamp),
        {
        let mut block = Block {
            index: 0,
            timestamp,
            data: String::from_str("Genesis Block"),
            prev_hash: String::from_str("0"),
            hash: String::new(),
            nonce: 0,
            transactions: Vec::new(),
            difficulty: INITIAL_DIFFICULTY,
        };
        let header = compute_header_digest(&block);
        let digest = compute_nonce_digest(header.as_slice(), block.nonce);
        block.hash = hex_encode(digest.as_slice());
        block
    }

    /// Appends `block` if it continues the last block; otherwise the chain
    /// is left as it was.
    pub fn add_block(&mut self, block: Block) -> (r: Result<(), ChainError>)
        requires
            old(self).wf(),
        ensures
            final(self).wf(),
            final(self).difficulty == old(self).difficulty,
            r is Ok <==> linked(old(self).tail(), block@),
            r is Ok ==> final(self).chain@ == old(self).chain@.push(block),
            r is Err ==> final(self).chain@ == old(self).chain@ && r->Err_0
                == ChainError::LinkageViolation,
    {
        let n = self.chain.len();
        let tail = &self.chain[n - 1];
        if !(block.prev_hash == tail.hash) || tail.index == u32::MAX || block.index != tail.index
            + 1 {
            return Err(ChainError::LinkageViolation);
        }
        proof {
            lemma_append_keeps_linkage(self.chain@, block);
        }
        self.chain.push(block);
        Ok(())
    }

    /// Appends the stored `blocks` after the chain's own, if the whole stays
    /// linked; otherwise the chain is left as it was.
    pub fn load_blocks(&mut self, blocks: Vec<Block>) -> (r: Result<(), ChainError>)
        requires
            old(self).wf(),
        ensures
            final(self).wf(),
            final(self).difficulty == old(self).difficulty,
            r is Ok <==> chain_linked(old(self).chain@ + blocks@),
            r is Ok ==> final(self).chain@ == old(self).chain@ + blocks@,
            r is Err ==> final(self).chain@ == old(self).chain@ && r->Err_0
                == ChainError::LinkageViolation,
    {
        proof {
            lemma_concat_linkage(self.chain@, blocks@);
        }
        let m = blocks.len();
        if m > 0 {
            if !check_linked(&blocks) {
                return Err(ChainError::LinkageViolation);
            }
            let n = self.chain.len();
            let tail = &self.chain[n - 1];
            let first = &blocks[0];
            if !(first.prev_hash == tail.hash) || tail.index == u32::MAX || first.index
                != tail.index + 1 {
                return Err(ChainError::LinkageViolation);
            }
        }
        let mut blocks = blocks;
        self.chain.append(&mut blocks);
        Ok(())
    }

    /// The difficulty controller: compares the last block's timestamp with
    /// that of the block `DIFFICULTY_ADJUSTMENT_INTERVAL - 1` places before
    /// it. If the interval's blocks span less than `TARGET_WINDOW_SECS`, the
    /// difficulty rises by one; otherwise it falls by one, but not below
    /// `INITIAL_DIFFICULTY`.
    pub fn adjust_difficulty(&mut self)
        requires
            old(self).wf(),
            old(self).chain@.len() >= DIFFICULTY_ADJUSTMENT_INTERVAL,
        ensures
            final(self).wf(),
            final(self).chain@ == old(self).chain@,
            final(self).difficulty == next_difficulty(
                old(self).difficulty,
                old(self).chain@[old(self).chain@.len() - DIFFICULTY_ADJUSTMENT_INTERVAL].timestamp,
                old(self).tail().timestamp,
            ),
    {
        let n = self.chain.len();
        let last = self.chain[n - 1].timestamp;
        let first = self.chain[n - DIFFICULTY_ADJUSTMENT_INTERVAL].timestamp;
        self.difficulty = adjusted_difficulty(self.difficulty, first, last);
    }

    /// Mines the next block with the transfers staged in `pool` and a reward
    /// to `miner_address`, stamped `timestamp`, searching from a random nonce
    /// (see `mine_block_at`). Returns the difficulty for the block after it.
    pub fn mine_block(&mut self, pool: &mut TransactionPool, miner_address: &str, timestamp: u64) -> (r:
        Result<u32, ChainError>)
        requires
            old(self).wf(),
        ensures
            final(self).wf(),
            r is Ok ==> mined_next(
                *old(self),
                *final(self),
                old(pool).pool@,
                final(pool).pool@,
                miner_address@,
                timestamp,
            ),
            r is Ok ==> r->Ok_0 == final(self).difficulty,
            r is Err ==> final(self).chain@ == old(self).chain@,
            r is Err ==> final(self).difficulty == old(self).difficulty,
            r is Err ==> final(pool).pool@ == old(pool).pool@,
            r == Err::<u32, ChainError>(ChainError::IndexExhausted) <==> old(self).tail().index
                == u32::MAX,
            r == Err::<u32, ChainError>(ChainError::RewardOverflow) <==> (old(self).tail().index
                < u32::MAX && mining_reward(old(self).chain@.len() as u64, old(pool).pool@)
                > u64::MAX),
            r == Err::<u32, ChainError>(ChainError::MiningFailure) ==> exists|start: u64|
                search_exhausted(*old(self), old(pool).pool@, miner_address@, timestamp, start),
            r is Err ==> r->Err_0 != ChainError::LinkageViolation,
    {
        let start_nonce: u64 = rand::random::<u64>();
        self.mine_block_at(pool, miner_address, timestamp, start_nonce)
    }

    /// Assembles, mines and appends the next block:
    /// - the reward is `calculate_mining_reward` at the chain's length over
    ///   the staged transfers, paid to `miner` by `"block_reward"` with its
    ///   fee, at `timestamp`;
    /// - the block follows the last one, holds the staged transfers followed
    ///   by the reward, is stamped `timestamp`, and is searched from
    ///   `start_nonce` at the chain's difficulty;
    /// - once it is appended the staging area is emptied, and the difficulty
    ///   is adjusted when the chain's length is a multiple of
    ///   `DIFFICULTY_ADJUSTMENT_INTERVAL`.
    /// On any error, the chain, its difficulty and the staging area are left
    /// as they were. Returns the difficulty for the block after it.
    pub fn mine_block_at(
        &mut self,
        pool: &mut TransactionPool,
        miner: &str,
        timestamp: u64,
        start_nonce: u64,
    ) -> (r: Result<u32, ChainError>)
        requires
            old(self).wf(),
        ensures
            final(self).wf(),
            r is Ok ==> mined_next(
                *old(self),
                *final(self),
                old(pool).pool@,
                final(pool).pool@,
                miner@,
                timestamp,
            ),
            r is Ok ==> r->Ok_0 == final(self).difficulty,
            r == Err::<u32, ChainError>(ChainError::MiningFailure) ==> search_exhausted(
                *old(self),
                old(pool).pool@,
                miner@,
                timestamp,
                start_nonce,
            ),
            r is Err ==> final(self).chain@ == old(self).chain@,
            r is Err ==> final(self).difficulty == old(self).difficulty,
            r is Err ==> final(pool).pool@ == old(pool).pool@,
            r == Err::<u32, ChainError>(ChainError::IndexExhausted) <==> old(self).tail().index
                == u32::MAX,
            r == Err::<u32, ChainError>(ChainError::RewardOverflow) <==> (old(self).tail().index
                < u32::MAX && mining_reward(old(self).chain@.len() as u64, old(pool).pool@)
                > u64::MAX),
            r is Err ==> r->Err_0 != ChainError::LinkageViolation,
    {
        let n = self.chain.len();
        if self.chain[n - 1].index == u32::MAX {
            return Err(ChainError::IndexExhausted);
        }
        let amount = match calculate_mining_reward(n as u64, pool) {
            Some(amount) => amount,
            None => {
                return Err(ChainError::RewardOverflow);
            },
        };
        let reward = Transaction {
            sender: String::from_str("block_reward"),
            receiver: String::from_str(miner),
            amount,
            timestamp,
            fee: calculate_fee(amount),
        };
        let mut transactions = pool.get_transactions();
        transactions.push(reward);
        assert(views_of(transactions@) =~= views_of(pool.pool@).push(reward_transfer(miner@, amount, timestamp)));
        let data = payload_text(&transactions);
        let ghost txs = transactions@;
        let ghost payload = data@;
        let ghost old_pool = pool.pool@;
        let tail = &self.chain[n - 1];
        let candidate = Block {
            index: tail.index + 1,
            timestamp,
            data,
            prev_hash: tail.hash.clone(),
            hash: String::new(),
            nonce: start_nonce,
            transactions,
            difficulty: self.difficulty,
        };
        let mut hasher = Hashing::new(candidate);
        if hasher.mine_block(self.difficulty).is_err() {
            return Err(ChainError::MiningFailure);
        }
        assert(views_of(hasher.block.transactions@) == views_of(transactions@));
        let block = hasher.block;
        let ghost before = self.chain@;
        let added = self.add_block(block);
        if added.is_err() {
            return Err(ChainError::LinkageViolation);
        }
        assert(self.chain@.drop_last() =~= before);
        pool.clear_pool();
        if self.chain.len() % DIFFICULTY_ADJUSTMENT_INTERVAL == 0 {
            self.adjust_difficulty();
        }
        proof {
            let b = self.chain@.last()@;
            assert(b.transactions == txs);
            assert(b.data == payload);
            assert(payload == next_payload(old_pool, miner@, amount, timestamp));
            assert(b.transactions.drop_last() == old_pool);
            assert(b.data == payload_of(views_of(b.transactions)));
        }
        Ok(self.difficulty)
    }
}

} // verus!
