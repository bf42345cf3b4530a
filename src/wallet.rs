//! A wallet's balance and the transfers it sends.

use vstd::prelude::*;

use crate::calculations::{calculate_fee, fee_of};
use crate::transaction::{Transaction, TransferView};

verus! {

/// Why a wallet operation was refused.
#[derive(Debug, PartialEq, Eq, Structural)]
pub enum WalletError {
    /// The balance does not cover the amount plus its fee.
    InsufficientBalance,
    /// The balance would pass `u64::MAX`.
    BalanceOverflow,
}

/// The balance, in base units, held at `address`.
#[derive(Debug)]
pub struct Wallet {
    pub address: String,
    pub balance: u64,
}

impl Wallet {
    pub fn new(address: String, balance: u64) -> (r: Wallet)
        ensures
            r.address == address,
            r.balance == balance,
    {
        Wallet { address, balance }
    }

    /// Sends `amount` to `receiver` at `timestamp`: the transfer carries the
    /// fee on `amount`, and the balance pays both. Refused, with the wallet
    /// unchanged, when the balance does not cover them.
    pub fn send_money(&mut self, receiver: String, amount: u64, timestamp: u64) -> (r: Result<
        Transaction,
        WalletError,
    >)
        ensures
            final(self).address == old(self).address,
            r is Ok <==> old(self).balance >= amount + fee_of(amount),
            r is Ok ==> final(self).balance == old(self).balance - amount - fee_of(amount),
            r is Ok ==> r->Ok_0@ == (TransferView {
                sender: old(self).address@,
                receiver: receiver@,
                amount,
                timestamp,
                fee: fee_of(amount) as u64,
            }),
            r is Err ==> final(self).balance == old(self).balance && r->Err_0
                == WalletError::InsufficientBalance,
    {
        let fee = calculate_fee(amount);
        if self.balance < amount || self.balance - amount < fee {
            return Err(WalletError::InsufficientBalance);
        }
        self.balance = self.balance - amount - fee;
        Ok(Transaction {
            sender: self.address.clone(),
            receiver,
            amount,
            timestamp,
            fee,
        })
    }

    /// Adds `amount` to the balance, unless it would pass `u64::MAX`.
    pub fn receive_money(&mut self, amount: u64) -> (r: Result<(), WalletError>)
        ensures
            final(self).address == old(self).address,
            r is Ok <==> old(self).balance + amount <= u64::MAX,
            r is Ok ==> final(self).balance == old(self).balance + amount,
            r is Err ==> final(self).balance == old(self).balance && r->Err_0
                == WalletError::BalanceOverflow,
    {
        if self.balance > u64::MAX - amount {
            return Err(WalletError::BalanceOverflow);
        }
        self.balance = self.balance + amount;
        Ok(())
    }

    pub fn get_balance(&self) -> (r: u64)
        ensures
            r == self.balance,
    {
        self.balance
    }
}

} // verus!
