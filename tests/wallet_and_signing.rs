use ed25519_dalek::Signature;

use serenity::transaction::{Transaction, TransactionID};
use serenity::transaction_pool::TransactionPool;
use serenity::wallet::{Wallet, WalletError};

#[test]
fn sending_pays_amount_and_fee() {
    let mut w = Wallet::new("alice".to_string(), 10_000);
    let t = w.send_money("bob".to_string(), 5_000, 77).unwrap();
    assert_eq!(t, Transaction::new("alice".into(), "bob".into(), 5_000, 77, 50));
    assert_eq!(w.get_balance(), 4_950);
}

#[test]
fn balance_must_cover_amount_and_fee() {
    let mut w = Wallet::new("alice".to_string(), 100);
    assert_eq!(w.send_money("bob".to_string(), 100, 1).err(), Some(WalletError::InsufficientBalance));
    assert!(w.send_money("bob".to_string(), 99, 1).is_ok());
    assert_eq!(w.get_balance(), 1);
}

#[test]
fn insufficient_balance_leaves_the_wallet_alone() {
    let mut w = Wallet::new("alice".to_string(), 100);
    assert_eq!(w.send_money("bob".to_string(), 200, 1).err(), Some(WalletError::InsufficientBalance));
    assert_eq!(w.get_balance(), 100);
    let mut rich = Wallet::new("r".to_string(), u64::MAX);
    assert_eq!(rich.send_money("s".to_string(), u64::MAX, 1).err(), Some(WalletError::InsufficientBalance));
    assert!(rich.send_money("s".to_string(), 1000, 3).is_ok());
    assert_eq!(rich.get_balance(), u64::MAX - 1010);
}

#[test]
fn receiving_adds_up_to_the_limit() {
    let mut w = Wallet::new("alice".to_string(), 5);
    assert_eq!(w.receive_money(10), Ok(()));
    assert_eq!(w.get_balance(), 15);
    assert_eq!(w.receive_money(u64::MAX), Err(WalletError::BalanceOverflow));
    assert_eq!(w.get_balance(), 15);
}

#[test]
fn submitted_transfer_carries_its_fee() {
    let mut pool = TransactionPool::new();
    pool.submit_transfer("a".to_string(), "b".to_string(), 1_000, 9);
    assert_eq!(pool.get_transactions(), vec![Transaction::new("a".into(), "b".into(), 1_000, 9, 10)]);
}

#[test]
fn signature_verifies_only_its_own_message() {
    let mut t = Transaction::new("alice".into(), "bob".into(), 42, 1, 0);
    let (sig, key, message) = t.sign_transaction();
    assert_eq!(message, b"alice transferred 42 to bob".to_vec());
    assert_eq!(sig.len(), 64);
    let bytes: [u8; 64] = sig.clone().try_into().unwrap();
    let signature = Signature::from_bytes(&bytes);
    assert!(t.verify_transaction(key.clone(), &signature, message.clone()));
    assert!(!t.verify_transaction(key, &signature, b"alice transferred 43 to bob".to_vec()));
}

#[test]
fn transaction_id_bytes_are_zero() {
    assert_eq!(TransactionID::new().as_bytes(), &[0u8; 32][..]);
}
