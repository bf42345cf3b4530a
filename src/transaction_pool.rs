//! The staging area for transfers that wait for the next mined block.

use vstd::prelude::*;

use crate::calculations::{calculate_fee, fee_of};
use crate::transaction::{Transaction, TransferView};

verus! {

/// Pending transfers, in the order in which they were added. Duplicates are
/// kept and mined as they are.
#[derive(Debug)]
pub struct TransactionPool {
    pub pool: Vec<Transaction>,
}

impl TransactionPool {
    /// An empty staging area.
    pub fn new() -> (r: TransactionPool)
        ensures
            r.pool@ == Seq::<Transaction>::empty(),
    {
        TransactionPool { pool: Vec::new() }
    }

    /// Appends `transaction` at the tail.
    pub fn add_transaction(&mut self, transaction: Transaction)
        ensures
            final(self).pool@ == old(self).pool@.push(transaction),
    {
        self.pool.push(transaction);
    }

    /// Stages a transfer of `amount` from `sender` to `receiver` made at
    /// `timestamp`, carrying the fee on `amount`.
    pub fn submit_transfer(&mut self, sender: String, receiver: String, amount: u64, timestamp: u64)
        ensures
            final(self).pool@.len() == old(self).pool@.len() + 1,
            final(self).pool@.drop_last() == old(self).pool@,
            final(self).pool@.last()@ == (TransferView {
                sender: sender@,
                receiver: receiver@,
                amount,
                timestamp,
                fee: fee_of(amount) as u64,
            }),
    {
        let fee = calculate_fee(amount);
        let transfer = Transaction::new(sender, receiver, amount, timestamp, fee);
        self.pool.push(transfer);
        assert(self.pool@.drop_last() =~= old(self).pool@);
    }

    /// Removes every staged transfer equal to `transaction` (all fields
    /// equal), keeping the others in their order.
    pub fn remove_transaction(&mut self, transaction: &Transaction)
        ensures
            final(self).pool@ == old(self).pool@.filter(|t: Transaction| t@ != transaction@),
    {
        let ghost pred = |t: Transaction| t@ != transaction@;
        let mut kept: Vec<Transaction> = Vec::new();
        let n = self.pool.len();
        let mut i: usize = 0;
        while i < n
            invariant
                n == self.pool@.len(),
                self.pool@ == old(self).pool@,
                i <= n,
                pred == (|t: Transaction| t@ != transaction@),
                kept@ == self.pool@.subrange(0, i as int).filter(pred),
            decreases n - i,
        {
            let ghost prefix = self.pool@.subrange(0, i + 1);
            assert(prefix.drop_last() == self.pool@.subrange(0, i as int));
            assert(prefix.last() == self.pool@[i as int]);
            proof {
                reveal(Seq::filter);
            }
            let same = self.pool[i] == *transaction;
            assert(same == (self.pool@[i as int]@ == transaction@));
            if !same {
                kept.push(self.pool[i].clone());
                assert(prefix.filter(pred) == prefix.drop_last().filter(pred).push(prefix.last()));
            } else {
                assert(prefix.filter(pred) == prefix.drop_last().filter(pred));
            }
            i = i + 1;
        }
        assert(self.pool@.subrange(0, n as int) == self.pool@);
        self.pool = kept;
    }

    /// Empties the staging area.
    pub fn clear_pool(&mut self)
        ensures
            final(self).pool@ == Seq::<Transaction>::empty(),
    {
        self.pool.clear();
    }

    /// A copy of the staged transfers, in order; the staging area is unchanged.
    pub fn get_transactions(&self) -> (r: Vec<Transaction>)
        ensures
            r@ == self.pool@,
    {
        let r = self.pool.clone();
        assert(r@ =~= self.pool@);
        r
    }

    /// Empties the staging area and returns what it held, in order.
    pub fn drain_all(&mut self) -> (r: Vec<Transaction>)
        ensures
            r@ == old(self).pool@,
            final(self).pool@ == Seq::<Transaction>::empty(),
    {
        let mut drained: Vec<Transaction> = Vec::new();
        std::mem::swap(&mut drained, &mut self.pool);
        drained
    }
}

} // verus!
