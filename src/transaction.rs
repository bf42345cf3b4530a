//! Transfer records and transaction identifiers.

use ed25519_dalek::{Signature, Signer, SigningKey};
use vstd::prelude::*;
use vstd::string::StringExecFns;
use vstd::utf8::encode_utf8;

use crate::encoding::{decimal_of, decimal_string, hex_of, hex_string, push_utf8};

verus! {

/// A transfer of `amount` base units from `sender` to `receiver`, with its
/// `fee` and the second at which it was made.
#[derive(Debug)]
pub struct Transaction {
    pub sender: String,
    pub receiver: String,
    pub amount: u64,
    pub timestamp: u64,
    pub fee: u64,
}

#[verifier::external_type_specification]
#[verifier::external_body]
pub struct ExSigningKey(SigningKey);

#[verifier::external_type_specification]
#[verifier::external_body]
pub struct ExSignature(Signature);

/// Relies on `ed25519_dalek::SigningKey::generate` with the operating
/// system's random source: a fresh key. Nothing is promised of it.
#[verifier::external_body]
fn generate_signing_key() -> (r: SigningKey) {
    SigningKey::generate(&mut rand::rngs::OsRng)
}

/// Relies on `Signer::sign` for `ed25519_dalek::SigningKey`: the Ed25519
/// signature of `message` (this signer does not fail).
#[verifier::external_body]
fn sign_message(key: &SigningKey, message: &[u8]) -> (r: Signature) {
    key.sign(message)
}

/// Relies on `ed25519::Signature::to_bytes`: the signature's 64 bytes.
#[verifier::external_body]
fn signature_bytes(signature: &Signature) -> (r: Vec<u8>)
    ensures
        r@.len() == 64,
{
    signature.to_bytes().to_vec()
}

/// Relies on `ed25519_dalek::SigningKey::verify`: whether `signature` is a
/// valid signature of `message` under the key's public half.
#[verifier::external_body]
fn signature_verifies(key: &SigningKey, message: &[u8], signature: &Signature) -> (r: bool) {
    key.verify(message, signature).is_ok()
}

/// What a transfer record holds, as plain values.
pub struct TransferView {
    pub sender: Seq<char>,
    pub receiver: Seq<char>,
    pub amount: u64,
    pub timestamp: u64,
    pub fee: u64,
}

impl View for Transaction {
    type V = TransferView;

    open spec fn view(&self) -> TransferView {
        TransferView {
            sender: self.sender@,
            receiver: self.receiver@,
            amount: self.amount,
            timestamp: self.timestamp,
            fee: self.fee,
        }
    }
}

/// What each of `txs` holds, in order.
pub open spec fn views_of(txs: Seq<Transaction>) -> Seq<TransferView> {
    txs.map_values(|t: Transaction| t@)
}

/// The one-line description of a transfer:
/// `"<sender> transferred <amount> to <receiver>"`.
pub open spec fn line_of(t: TransferView) -> Seq<char> {
    t.sender + " transferred "@ + decimal_of(t.amount as nat) + " to "@ + t.receiver
}

impl Clone for Transaction {
    fn clone(&self) -> (r: Self)
        ensures
            r == *self,
    {
        Transaction {
            sender: self.sender.clone(),
            receiver: self.receiver.clone(),
            amount: self.amount,
            timestamp: self.timestamp,
            fee: self.fee,
        }
    }
}

impl PartialEq for Transaction {
    fn eq(&self, other: &Transaction) -> (r: bool) {
        self.sender == other.sender && self.receiver == other.receiver && self.amount
            == other.amount && self.timestamp == other.timestamp && self.fee == other.fee
    }
}

impl vstd::std_specs::cmp::PartialEqSpecImpl for Transaction {
    open spec fn obeys_eq_spec() -> bool {
        true
    }

    open spec fn eq_spec(&self, other: &Transaction) -> bool {
        self@ == other@
    }
}

impl Transaction {
    pub fn new(sender: String, receiver: String, amount: u64, timestamp: u64, fee: u64) -> (r:
        Transaction)
        ensures
            r.sender == sender,
            r.receiver == receiver,
            r.amount == amount,
            r.timestamp == timestamp,
            r.fee == fee,
    {
        Transaction { sender, receiver, amount, timestamp, fee }
    }

    /// The one-line description of this transfer (see `line_of`).
    pub fn to_string(&self) -> (r: String)
        ensures
            r@ == line_of(self@),
    {
        let mut s = self.sender.clone();
        s.append(" transferred ");
        let amount = decimal_string(self.amount);
        s.append(amount.as_str());
        s.append(" to ");
        s.append(self.receiver.as_str());
        s
    }

    /// The UTF-8 bytes of the one-line description.
    pub fn to_bytes(&self) -> (r: Vec<u8>)
        ensures
            r@ == encode_utf8(line_of(self@)),
    {
        let line = self.to_string();
        let mut out: Vec<u8> = Vec::new();
        push_utf8(&mut out, line.as_str());
        out
    }

    /// Signs the transfer's bytes (`to_bytes`) with a fresh random key.
    /// Returns the 64-byte signature, the key, and the bytes signed.
    pub fn sign_transaction(&mut self) -> (r: (Vec<u8>, SigningKey, Vec<u8>))
        ensures
            *final(self) == *old(self),
            r.0@.len() == 64,
            r.2@ == encode_utf8(line_of(old(self)@)),
    {
        let message = self.to_bytes();
        let signing_key = generate_signing_key();
        let signature = sign_message(&signing_key, message.as_slice());
        (signature_bytes(&signature), signing_key, message)
    }

    /// Whether `signature` is a valid signature of `message` under
    /// `signing_key`.
    pub fn verify_transaction(
        &self,
        signing_key: SigningKey,
        signature: &Signature,
        message: Vec<u8>,
    ) -> (r: bool) {
        signature_verifies(&signing_key, message.as_slice(), signature)
    }
}

/// Length in bytes of a transaction identifier (a 256-bit hash).
pub const TRANSACTION_ID_LENGTH: usize = 32;

/// A 256-bit transaction identifier.
#[derive(Clone, Copy, Debug, Default, Eq, Hash, PartialEq)]
pub struct TransactionID([u8; TRANSACTION_ID_LENGTH]);

impl View for TransactionID {
    type V = Seq<u8>;

    closed spec fn view(&self) -> Seq<u8> {
        self.0@
    }
}

impl TransactionID {
    /// The all-zero identifier.
    pub fn new() -> (r: TransactionID)
        ensures
            r@ == Seq::new(TRANSACTION_ID_LENGTH as nat, |i: int| 0u8),
    {
        let id = TransactionID([0u8; TRANSACTION_ID_LENGTH]);
        assert(id@ =~= Seq::new(TRANSACTION_ID_LENGTH as nat, |i: int| 0u8));
        id
    }

    /// The identifier's 32 bytes.
    pub fn as_bytes(&self) -> (r: &[u8])
        ensures
            r@ == self@,
    {
        self.0.as_slice()
    }

    /// The identifier as 64 lower-case hexadecimal digits.
    pub fn as_hex(&self) -> (r: String)
        ensures
            r@ == hex_of(self@),
    {
        hex_string(&self.0)
    }
}

} // verus!
