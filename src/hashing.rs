//! Block digests, the difficulty target, and the proof-of-work search.
//!
//! A block's digest is SHA-256 over a 32-byte header digest followed by the
//! nonce's eight little-endian bytes. The header digest is SHA-256 over the
//! index (four little-endian bytes), the timestamp (eight little-endian
//! bytes), the length of the data in bytes (eight little-endian bytes), the
//! data, and the previous hash, the last two as UTF-8. The hash stored in a
//! block is the lower-case hexadecimal text of its digest.
//!
//! The target compares the first 64 bits of the digest, read big-endian, with
//! `(2^64 - 1) >> difficulty`.

use rayon::iter::{IntoParallelIterator, ParallelIterator};
use std::sync::atomic::{AtomicBool, AtomicU64, Ordering};
use vstd::prelude::*;
use vstd::utf8::encode_utf8;

use crate::block::{Block, BlockView};
use crate::encoding::{
    hex_encode,
    hex_of,
    le_bytes_u32,
    le_bytes_u64,
    leading_u64,
    push_le_u32,
    push_bytes,
    push_le_u64,
    push_utf8,
    read_leading_u64,
    sha256,
    sha256_of,
};

verus! {

/// The bytes that the header digest is taken over.
pub open spec fn header_bytes(index: u32, timestamp: u64, data: Seq<char>, prev_hash: Seq<char>) -> Seq<u8> {
    le_bytes_u32(index) + le_bytes_u64(timestamp) + le_bytes_u64(encode_utf8(data).len() as u64)
        + encode_utf8(data) + encode_utf8(prev_hash)
}

/// The digest of a header's fields.
pub open spec fn header_digest_of(index: u32, timestamp: u64, data: Seq<char>, prev_hash: Seq<char>) -> Seq<u8> {
    sha256_of(header_bytes(index, timestamp, data, prev_hash))
}

/// The digest of the fields of `b` that the search does not change.
pub open spec fn header_digest(b: BlockView) -> Seq<u8> {
    header_digest_of(b.index, b.timestamp, b.data, b.prev_hash)
}

/// No nonce from `start` up gives `header` a digest that meets the target of
/// `difficulty`.
pub open spec fn no_nonce_from(header: Seq<u8>, start: u64, difficulty: u32) -> bool {
    forall|n: u64| start <= n ==> !#[trigger] meets_target(nonce_digest(header, n), difficulty)
}

/// The digest of a header digest followed by a nonce.
pub open spec fn nonce_digest(header: Seq<u8>, nonce: u64) -> Seq<u8> {
    sha256_of(header + le_bytes_u64(nonce))
}

/// The digest of a block at its own nonce.
pub open spec fn block_digest(b: BlockView) -> Seq<u8> {
    nonce_digest(header_digest(b), b.nonce)
}

/// The largest leading 64-bit value a digest may have at `difficulty`.
pub open spec fn target(difficulty: u32) -> u64 {
    if difficulty >= 64 {
        0
    } else {
        0xffff_ffff_ffff_ffffu64 >> difficulty
    }
}

/// Whether `digest` satisfies the target of `difficulty`.
pub open spec fn meets_target(digest: Seq<u8>, difficulty: u32) -> bool {
    leading_u64(digest) <= target(difficulty)
}

/// A mined block: its hash is the text of its digest, and the digest meets
/// the target of the block's difficulty.
pub open spec fn is_sealed(b: BlockView) -> bool {
    &&& b.hash == hex_of(block_digest(b))
    &&& meets_target(block_digest(b), b.difficulty)
}

/// `a` and `b` agree on everything that the search leaves alone.
pub open spec fn same_contents(a: BlockView, b: BlockView) -> bool {
    &&& a.index == b.index
    &&& a.timestamp == b.timestamp
    &&& a.data == b.data
    &&& a.prev_hash == b.prev_hash
    &&& a.transactions == b.transactions
}

/// `after` is `before` with only its nonce and hash changed: the nonce is
/// `nonce`, the hash is the text of the new digest, and that digest meets
/// the target of `difficulty`.
pub open spec fn sealed_from(after: BlockView, before: BlockView, difficulty: u32, nonce: u64) -> bool {
    &&& same_contents(after, before)
    &&& after.difficulty == before.difficulty
    &&& after.nonce == nonce
    &&& after.hash == hex_of(block_digest(after))
    &&& meets_target(block_digest(after), difficulty)
}

/// The nonce tried `k` steps into a strided search, if it does not pass
/// `u64::MAX`.
pub open spec fn stride_nonce(start: u64, step: u64, k: nat) -> int {
    start + k * step
}

/// A higher difficulty has a strictly smaller target, up to difficulty 64
/// (whose target is zero).
pub proof fn lemma_target_shrinks(difficulty: u32)
    requires
        difficulty < 64,
    ensures
        target((difficulty + 1) as u32) < target(difficulty),
{
    let d = difficulty;
    if d == 63 {
        assert(0xffff_ffff_ffff_ffffu64 >> 63u32 == 1u64) by (bit_vector);
    } else {
        assert((0xffff_ffff_ffff_ffffu64 >> ((d + 1) as u32)) < (0xffff_ffff_ffff_ffffu64 >> d))
            by (bit_vector)
            requires
                d < 63,
        ;
    }
}

/// Below difficulty 64 the target is never zero.
pub proof fn lemma_target_nonzero(difficulty: u32)
    requires
        difficulty < 64,
    ensures
        target(difficulty) > 0,
{
    let d = difficulty;
    assert((0xffff_ffff_ffff_ffffu64 >> d) > 0) by (bit_vector)
        requires
            d < 64,
    ;
}

/// The digest depends only on the index, timestamp, data, previous hash and
/// nonce, so recomputing the hash of a sealed block from those fields gives
/// back its stored hash, and that digest meets the block's target.
pub proof fn lemma_sealed_hash_reproducible(mined: BlockView, recomputed: BlockView)
    requires
        is_sealed(mined),
        recomputed.index == mined.index,
        recomputed.timestamp == mined.timestamp,
        recomputed.data == mined.data,
        recomputed.prev_hash == mined.prev_hash,
        recomputed.nonce == mined.nonce,
    ensures
        hex_of(block_digest(recomputed)) == mined.hash,
        leading_u64(block_digest(recomputed)) <= target(mined.difficulty),
{
}

/// The proof-of-work search found no usable nonce.
#[derive(Debug, PartialEq, Eq, Structural)]
pub struct MiningFailure;

/// The target of `difficulty`: `(2^64 - 1) >> difficulty`.
pub fn target_value(difficulty: u32) -> (t: u64)
    ensures
        t == target(difficulty),
{
    if difficulty >= 64 {
        0
    } else {
        0xffff_ffff_ffff_ffffu64 >> difficulty
    }
}

/// Whether `b` is sealed: its stored hash is the text of its digest, and the
/// digest meets the target of its difficulty.
pub fn is_block_sealed(b: &Block) -> (r: bool)
    ensures
        r == is_sealed(b@),
{
    let header = compute_header_digest(b);
    let digest = compute_nonce_digest(header.as_slice(), b.nonce);
    let text = hex_encode(digest.as_slice());
    text == b.hash && digest_meets_target(digest.as_slice(), b.difficulty)
}

/// Computes the header digest of `b`.
pub fn compute_header_digest(b: &Block) -> (r: Vec<u8>)
    ensures
        r@ == header_digest(b@),
        r@.len() == 32,
{
    let mut bytes: Vec<u8> = Vec::new();
    push_le_u32(&mut bytes, b.index);
    push_le_u64(&mut bytes, b.timestamp);
    let mut data: Vec<u8> = Vec::new();
    push_utf8(&mut data, b.data.as_str());
    assert(data@ =~= encode_utf8(b.data@));
    push_le_u64(&mut bytes, data.len() as u64);
    push_bytes(&mut bytes, data.as_slice());
    push_utf8(&mut bytes, b.prev_hash.as_str());
    assert(bytes@ =~= header_bytes(b.index, b.timestamp, b.data@, b.prev_hash@));
    sha256(bytes.as_slice())
}

/// Computes the digest of `header` followed by `nonce`.
pub fn compute_nonce_digest(header: &[u8], nonce: u64) -> (r: Vec<u8>)
    ensures
        r@ == nonce_digest(header@, nonce),
        r@.len() == 32,
{
    let mut bytes: Vec<u8> = Vec::new();
    push_bytes(&mut bytes, header);
    push_le_u64(&mut bytes, nonce);
    sha256(bytes.as_slice())
}

/// Whether a 32-byte `digest` satisfies the target of `difficulty`.
pub fn digest_meets_target(digest: &[u8], difficulty: u32) -> (r: bool)
    requires
        digest@.len() == 32,
    ensures
        r == meets_target(digest@, difficulty),
{
    read_leading_u64(digest) <= target_value(difficulty)
}

/// Relies on `rayon::current_num_threads`: the size of rayon's thread pool.
/// Nothing is promised of the value.
#[verifier::external_body]
fn pool_threads() -> (r: usize) {
    rayon::current_num_threads()
}

/// Relies on rayon's `into_par_iter` over a range and `for_each`: the closure
/// runs once for each of `0..workers` on rayon's thread pool, and the call
/// returns when every run has returned.
#[verifier::external_body]
fn run_workers(job: &SearchJob, workers: usize, cancel: &AtomicBool) {
    (0..workers).into_par_iter().for_each(|_| job.run_worker(cancel));
}

/// The state that the workers of one search share: a counter from which
/// each worker claims the next untried nonce, a flag raised by the first
/// worker that finds a nonce meeting the target, and the nonce it found.
pub(crate) struct SearchJob {
    header: Vec<u8>,
    target: u64,
    next_nonce: AtomicU64,
    found: AtomicBool,
    winner: AtomicU64,
}

impl SearchJob {
    /// A search over nonces from `start_nonce` upwards, for a block whose
    /// header digest is `header`, at `difficulty`.
    fn new(header: Vec<u8>, difficulty: u32, start_nonce: u64) -> (r: SearchJob)
        ensures
            r.header@ == header@,
            r.target == target(difficulty),
    {
        SearchJob {
            header,
            target: target_value(difficulty),
            next_nonce: AtomicU64::new(start_nonce),
            found: AtomicBool::new(false),
            winner: AtomicU64::new(0),
        }
    }

    /// One worker: claims nonces one at a time from the shared counter and
    /// tests each, until a worker has found one, `cancel` is raised, or it
    /// has claimed `u64::MAX` nonces. The first worker to find a nonce
    /// publishes it; a later finder leaves the published one in place.
    pub(crate) fn run_worker(&self, cancel: &AtomicBool) {
        let mut claimed: u64 = 0;
        while claimed < u64::MAX
            decreases u64::MAX - claimed,
        {
            if self.found.load(Ordering::SeqCst) || cancel.load(Ordering::SeqCst) {
                break;
            }
            let nonce = self.next_nonce.fetch_add(1, Ordering::SeqCst);
            let digest = compute_nonce_digest(self.header.as_slice(), nonce);
            if read_leading_u64(digest.as_slice()) <= self.target {
                let first = self.found.compare_exchange(
                    false,
                    true,
                    Ordering::SeqCst,
                    Ordering::SeqCst,
                );
                if first.is_ok() {
                    self.winner.store(nonce, Ordering::SeqCst);
                }
                break;
            }
            claimed = claimed + 1;
        }
    }

    /// The nonce published by the first successful worker, if any.
    pub(crate) fn outcome(&self) -> Option<u64> {
        if self.found.load(Ordering::SeqCst) {
            Some(self.winner.load(Ordering::SeqCst))
        } else {
            None
        }
    }
}

/// The proof-of-work engine, working on one block.
pub struct Hashing {
    pub block: Block,
}

impl Hashing {
    pub fn new(block: Block) -> (r: Hashing)
        ensures
            r.block@ == block@,
    {
        Hashing { block }
    }

    /// The hash of the block at its current nonce: the hexadecimal text of
    /// its digest.
    pub fn calculate_hash(&self) -> (r: String)
        ensures
            r@ == hex_of(block_digest(self.block@)),
    {
        let header = compute_header_digest(&self.block);
        let digest = compute_nonce_digest(header.as_slice(), self.block.nonce);
        hex_encode(digest.as_slice())
    }

    /// Sets the block's nonce to `candidate` and its hash to the matching
    /// text if that nonce meets the target of `difficulty`; otherwise leaves
    /// the block as it is and fails.
    pub fn accept_nonce(&mut self, difficulty: u32, candidate: Option<u64>) -> (r: Result<
        (),
        MiningFailure,
    >)
        ensures
            r is Ok <==> (candidate is Some && meets_target(
                nonce_digest(header_digest(old(self).block@), candidate->0),
                difficulty,
            )),
            r is Ok ==> sealed_from(final(self).block@, old(self).block@, difficulty, candidate->0),
            r is Err ==> final(self).block@ == old(self).block@,
    {
        match candidate {
            Some(nonce) => {
                let header = compute_header_digest(&self.block);
                let digest = compute_nonce_digest(header.as_slice(), nonce);
                if digest_meets_target(digest.as_slice(), difficulty) {
                    self.block.nonce = nonce;
                    self.block.hash = hex_encode(digest.as_slice());
                    Ok(())
                } else {
                    Err(MiningFailure)
                }
            },
            None => Err(MiningFailure),
        }
    }

    /// Searches for a nonce meeting the target of `difficulty` with `workers`
    /// workers sharing one nonce counter, which starts at the block's nonce.
    /// Raising `cancel` stops the workers after their current nonce. On
    /// success the block is sealed at the nonce found; on failure (cancelled,
    /// or no worker found one) it is left as it was.
    pub fn mine_block_cancellable(
        &mut self,
        difficulty: u32,
        workers: usize,
        cancel: &AtomicBool,
    ) -> (r: Result<(), MiningFailure>)
        ensures
            r is Ok ==> sealed_from(
                final(self).block@,
                old(self).block@,
                difficulty,
                final(self).block.nonce,
            ),
            r is Err ==> final(self).block@ == old(self).block@,
    {
        let header = compute_header_digest(&self.block);
        let job = SearchJob::new(header, difficulty, self.block.nonce);
        run_workers(&job, workers, cancel);
        self.accept_nonce(difficulty, job.outcome())
    }

    /// Searches with `workers` workers sharing one nonce counter, which
    /// starts at the block's nonce, and no cancellation. Should no worker
    /// hand back a nonce meeting the target, the nonces from the block's
    /// nonce up are searched in order. Fails only when none of them meets
    /// the target.
    pub fn mine_block_with_workers(&mut self, difficulty: u32, workers: usize) -> (r: Result<
        (),
        MiningFailure,
    >)
        ensures
            r is Ok ==> sealed_from(
                final(self).block@,
                old(self).block@,
                difficulty,
                final(self).block.nonce,
            ),
            r is Err ==> final(self).block@ == old(self).block@,
            r is Err ==> no_nonce_from(
                header_digest(old(self).block@),
                old(self).block.nonce,
                difficulty,
            ),
    {
        let never = AtomicBool::new(false);
        let start = self.block.nonce;
        if self.mine_block_cancellable(difficulty, workers, &never).is_ok() {
            return Ok(());
        }
        let r = self.mine_block_parallel(difficulty, start, 1);
        proof {
            if r is Err {
                let h = header_digest(old(self).block@);
                assert forall|n: u64| start <= n implies !#[trigger] meets_target(
                    nonce_digest(h, n),
                    difficulty,
                ) by {
                    let k = (n - start) as nat;
                    assert(stride_nonce(start, 1, k) == n);
                }
            }
        }
        r
    }

    /// A single-threaded search over `start_nonce`, `start_nonce + step`,
    /// `start_nonce + 2 * step`, ..., up to `u64::MAX`. On success the block
    /// is sealed at the first of these that meets the target of
    /// `difficulty`; if none does, the block is left as it was.
    pub fn mine_block_parallel(&mut self, difficulty: u32, start_nonce: u64, step: u64) -> (r:
        Result<(), MiningFailure>)
        requires
            step > 0,
        ensures
            r is Ok ==> sealed_from(
                final(self).block@,
                old(self).block@,
                difficulty,
                final(self).block.nonce,
            ),
            r is Ok ==> exists|k: nat|
                {
                    &&& #[trigger] stride_nonce(start_nonce, step, k) == final(self).block.nonce
                    &&& forall|j: nat|
                        j < k ==> !meets_target(
                            nonce_digest(
                                header_digest(old(self).block@),
                                #[trigger] stride_nonce(start_nonce, step, j) as u64,
                            ),
                            difficulty,
                        )
                },
            r is Err ==> final(self).block@ == old(self).block@,
            r is Err ==> forall|k: nat|
                #[trigger] stride_nonce(start_nonce, step, k) <= u64::MAX ==> !meets_target(
                    nonce_digest(
                        header_digest(old(self).block@),
                        stride_nonce(start_nonce, step, k) as u64,
                    ),
                    difficulty,
                ),
    {
        let header = compute_header_digest(&self.block);
        let ghost h = header@;
        let mut nonce = start_nonce;
        let ghost mut k: nat = 0;
        loop
            invariant
                step > 0,
                h == header@,
                h == header_digest(old(self).block@),
                self.block@ == old(self).block@,
                nonce == stride_nonce(start_nonce, step, k),
                forall|j: nat|
                    j < k ==> !meets_target(
                        nonce_digest(h, #[trigger] stride_nonce(start_nonce, step, j) as u64),
                        difficulty,
                    ),
            decreases u64::MAX - nonce,
        {
            let digest = compute_nonce_digest(header.as_slice(), nonce);
            if digest_meets_target(digest.as_slice(), difficulty) {
                self.block.nonce = nonce;
                self.block.hash = hex_encode(digest.as_slice());
                return Ok(());
            }
            if nonce > u64::MAX - step {
                assert forall|j: nat|
                    #[trigger] stride_nonce(start_nonce, step, j) <= u64::MAX implies !meets_target(
                        nonce_digest(h, stride_nonce(start_nonce, step, j) as u64),
                        difficulty,
                    ) by {
                    if j > k {
                        assert(j * step >= (k + 1) * step) by (nonlinear_arith)
                            requires
                                j >= k + 1,
                                step > 0,
                        ;
                        assert((k + 1) * step == k * step + step) by (nonlinear_arith);
                        assert(false);
                    } else if j == k {
                        assert(!meets_target(digest@, difficulty));
                    }
                }
                return Err(MiningFailure);
            }
            proof {
                assert((k + 1) * step == k * step + step) by (nonlinear_arith);
            }
            nonce = nonce + step;
            proof {
                k = k + 1;
            }
        }
    }

    /// `mine_block_with_workers` with one worker per thread of the pool.
    pub fn mine_block(&mut self, difficulty: u32) -> (r: Result<(), MiningFailure>)
        ensures
            r is Ok ==> sealed_from(
                final(self).block@,
                old(self).block@,
                difficulty,
                final(self).block.nonce,
            ),
            r is Err ==> final(self).block@ == old(self).block@,
            r is Err ==> no_nonce_from(
                header_digest(old(self).block@),
                old(self).block.nonce,
                difficulty,
            ),
    {
        let threads = pool_threads();
        let workers = if threads == 0 {
            1
        } else {
            threads
        };
        self.mine_block_with_workers(difficulty, workers)
    }
}

} // verus!
