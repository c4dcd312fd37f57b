//! BTC transaction utils is a small library that helps to create multisig
//! addresses and to sign some types of segwit transactions.
//!
//! - [`multisig`] builds a redeem script from a quorum and a list of public
//!   keys, and reads a script back into both.
//! - [`p2wpk`] signs the inputs that spend an output paid to a single key.
//! - [`p2wsh`] signs the inputs that spend an output paid to a redeem script.
//! - [`sign`] holds the signature with its sighash type byte, and the digest,
//!   the signing and the verifying that both signers share.
//!
//! Scripts, keys and transactions are plain values: [`script`], [`keys`] and
//! [`transaction`]. The `bitcoin` and `secp256k1` crates read and write
//! scripts, hash, sign and verify; what is relied on of them is stated where
//! they are called.

pub mod encoding;
pub mod keys;
pub mod multisig;
pub mod p2wpk;
pub mod p2wsh;
pub mod script;
pub mod sign;
pub mod test_data;
pub mod transaction;

pub use crate::sign::{InputSignature, InputSignatureRef};
use crate::transaction::{Transaction, TxIn, TxOut};
use vstd::prelude::*;
use vstd::std_specs::convert::FromSpecImpl;

verus! {

/// The bitcoin network that an address belongs to.
#[derive(Debug, Clone, Copy, PartialEq, Eq, Structural)]
pub enum Network {
    /// Mainnet Bitcoin.
    Bitcoin,
    /// Bitcoin's testnet network.
    Testnet,
    /// Bitcoin's testnet4 network.
    Testnet4,
    /// Bitcoin's signet network.
    Signet,
    /// Bitcoin's regtest network.
    Regtest,
}

/// A borrowed reference to a transaction input.
#[derive(Debug, Clone, Copy)]
pub struct TxInRef<'a> {
    transaction: &'a Transaction,
    index: usize,
}

impl<'a> TxInRef<'a> {
    #[verifier::type_invariant]
    spec fn well_formed(self) -> bool {
        self.index < self.transaction.input@.len()
    }

    /// The borrowed transaction.
    pub closed spec fn spec_transaction(&self) -> Transaction {
        *self.transaction
    }

    /// The index of the input.
    pub closed spec fn spec_index(&self) -> usize {
        self.index
    }

    /// The input.
    pub open spec fn spec_input(&self) -> TxIn {
        self.spec_transaction().input@[self.spec_index() as int]
    }

    /// Constructs a reference to the input with the given index of the given transaction.
    pub fn new(transaction: &'a Transaction, index: usize) -> (r: TxInRef<'a>)
        requires
            index < transaction.input@.len(),
        ensures
            r.spec_transaction() == *transaction,
            r.spec_index() == index,
    {
        TxInRef { transaction, index }
    }

    /// Returns a reference to the borrowed transaction.
    pub fn transaction(&self) -> (r: &Transaction)
        ensures
            *r == self.spec_transaction(),
            self.spec_index() < r.input@.len(),
    {
        proof {
            use_type_invariant(self);
        }
        self.transaction
    }

    /// Returns a reference to the input.
    pub fn input(&self) -> (r: &TxIn)
        ensures
            self.spec_index() < self.spec_transaction().input@.len(),
            *r == self.spec_input(),
    {
        proof {
            use_type_invariant(self);
        }
        &self.transaction.input[self.index]
    }

    /// Returns the index of input.
    pub fn index(&self) -> (r: usize)
        ensures
            r == self.spec_index(),
            r < self.spec_transaction().input@.len(),
    {
        proof {
            use_type_invariant(self);
        }
        self.index
    }
}

/// An auxiliary enumeration that helps to get the balance of the previous transaction output.
#[derive(Debug, Clone, Copy)]
pub enum TxOutValue<'a> {
    /// The output balance.
    Amount(u64),
    /// A reference to the transaction with the required output.
    PrevTx(&'a Transaction),
    /// A reference to the transaction output to be spent.
    PrevOut(&'a TxOut),
}

impl<'a> TxOutValue<'a> {
    /// Whether the balance can be looked up for the given input: a previous
    /// transaction has to hold the output that the input spends.
    pub open spec fn covers(self, txin: TxInRef) -> bool {
        self matches TxOutValue::PrevTx(prev_tx) ==> txin.spec_input().prev_index
            < prev_tx.output@.len()
    }

    /// The balance of the output that the given input spends.
    pub open spec fn spec_amount(self, txin: TxInRef) -> u64 {
        match self {
            TxOutValue::Amount(value) => value,
            TxOutValue::PrevTx(prev_tx) => prev_tx.output@[txin.spec_input().prev_index as int].value,
            TxOutValue::PrevOut(out) => out.value,
        }
    }

    /// Returns the output balance value.
    pub fn amount(self, txin: TxInRef) -> (r: u64)
        requires
            self.covers(txin),
        ensures
            r == self.spec_amount(txin),
    {
        match self {
            TxOutValue::Amount(value) => value,
            TxOutValue::PrevTx(prev_tx) => prev_tx.output[txin.input().prev_index as usize].value,
            TxOutValue::PrevOut(out) => out.value,
        }
    }
}

impl<'a> From<u64> for TxOutValue<'a> {
    fn from(amount: u64) -> (r: TxOutValue<'a>) {
        TxOutValue::Amount(amount)
    }
}

impl<'a> FromSpecImpl<u64> for TxOutValue<'a> {
    open spec fn obeys_from_spec() -> bool {
        true
    }

    open spec fn from_spec(amount: u64) -> TxOutValue<'a> {
        TxOutValue::Amount(amount)
    }
}

impl<'a> From<&'a Transaction> for TxOutValue<'a> {
    fn from(tx_ref: &'a Transaction) -> (r: TxOutValue<'a>) {
        TxOutValue::PrevTx(tx_ref)
    }
}

impl<'a> FromSpecImpl<&'a Transaction> for TxOutValue<'a> {
    open spec fn obeys_from_spec() -> bool {
        true
    }

    open spec fn from_spec(tx_ref: &'a Transaction) -> TxOutValue<'a> {
        TxOutValue::PrevTx(tx_ref)
    }
}

impl<'a> From<&'a TxOut> for TxOutValue<'a> {
    fn from(tx_out: &'a TxOut) -> (r: TxOutValue<'a>) {
        TxOutValue::PrevOut(tx_out)
    }
}

impl<'a> FromSpecImpl<&'a TxOut> for TxOutValue<'a> {
    open spec fn obeys_from_spec() -> bool {
        true
    }

    open spec fn from_spec(tx_out: &'a TxOut) -> TxOutValue<'a> {
        TxOutValue::PrevOut(tx_out)
    }
}

} // verus!
