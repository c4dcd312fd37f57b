//! A set of helpers for testing.

use crate::encoding::{decode_hex, hex_decode};
use crate::keys::{is_secret_key, PublicKey, SecretKey};
use crate::transaction::{Transaction, TransactionView, TxIn, TxOut};
use bitcoin::Transaction as OutsideTransaction;
use vstd::prelude::*;

verus! {

/// The transaction that `bitcoin::consensus::deserialize` reads from `bytes`;
/// nothing where it refuses them.
pub uninterp spec fn decoded_transaction(bytes: Seq<u8>) -> Option<TransactionView>;

/// The 32 bytes of the secret key that `bitcoin::PrivateKey::from_wif` reads
/// from a text in wallet import format; nothing where it refuses the text.
pub uninterp spec fn wif_secret_key(wif: Seq<char>) -> Option<Seq<u8>>;

/// Calls `bitcoin::consensus::deserialize` for a transaction and writes the
/// transaction out as plain values.
#[verifier::external_body]
fn deserialize_transaction(bytes: &[u8]) -> (r: Option<Transaction>)
    ensures
        match r {
            Some(transaction) => decoded_transaction(bytes@) == Some(transaction@),
            None => decoded_transaction(bytes@) is None,
        },
{
    let tx: OutsideTransaction = bitcoin::consensus::deserialize(bytes).ok()?;
    let input = tx.input.iter().map(|txin| TxIn {
        prev_hash: bitcoin::hashes::Hash::to_byte_array(txin.previous_output.txid),
        prev_index: txin.previous_output.vout,
        script_sig: txin.script_sig.to_bytes(),
        sequence: txin.sequence.0,
        witness: txin.witness.to_vec(),
    }).collect();
    let output = tx.output.iter().map(|txout| TxOut {
        value: txout.value.to_sat(),
        script_pubkey: txout.script_pubkey.to_bytes(),
    }).collect();
    Some(Transaction { version: tx.version.0, lock_time: tx.lock_time.to_consensus_u32(), input, output })
}

/// Calls `bitcoin::PrivateKey::from_wif` and hands out the bytes of the secret key read.
#[verifier::external_body]
fn secret_key_from_wif(wif: &str) -> (r: Option<[u8; 32]>)
    ensures
        match r {
            Some(secret) => wif_secret_key(wif@) == Some(secret@),
            None => wif_secret_key(wif@) is None,
        },
{
    bitcoin::PrivateKey::from_wif(wif).ok().map(|key| key.inner.secret_bytes())
}

/// The pair of keys that 32 bytes give: the bytes as the secret key and the
/// public key that belongs to it.
pub open spec fn spec_keypair(data: Seq<u8>) -> Option<(Seq<u8>, Seq<u8>)> {
    if is_secret_key(data) {
        match PublicKey::spec_from_secret_key(data) {
            Some(public_key) => Some((public_key, data)),
            None => None,
        }
    } else {
        None
    }
}

/// The transaction that a hexadecimal text stands for.
pub open spec fn spec_btc_tx_from_hex(text: Seq<char>) -> Option<TransactionView> {
    match hex_decode(text) {
        Some(bytes) => decoded_transaction(bytes),
        None => None,
    }
}

/// The pair of keys that a secret key in wallet import format gives.
pub open spec fn spec_keypair_from_wif(wif: Seq<char>) -> Option<(Seq<u8>, Seq<u8>)> {
    match wif_secret_key(wif) {
        Some(secret) => spec_keypair(secret),
        None => None,
    }
}

/// Takes 32 bytes, as a random number generator gives them, as a secret key
/// and computes the corresponding public key. Gives nothing where the bytes
/// are no secret key: the caller then draws again.
pub fn secp_keypair_from_bytes(data: &[u8]) -> (r: Option<(PublicKey, SecretKey)>)
    ensures
        match r {
            Some((public_key, secret_key)) => spec_keypair(data@) == Some(
                (public_key@, secret_key@),
            ),
            None => spec_keypair(data@) is None,
        },
{
    match SecretKey::from_slice(data) {
        Some(secret_key) => match PublicKey::from_secret_key(&secret_key) {
            Some(public_key) => Some((public_key, secret_key)),
            None => None,
        },
        None => None,
    }
}

/// Decodes a Bitcoin transaction from the given hex string. Gives nothing
/// where the text is no hexadecimal text or its bytes are no transaction.
pub fn btc_tx_from_hex(s: &str) -> (r: Option<Transaction>)
    ensures
        match r {
            Some(transaction) => spec_btc_tx_from_hex(s@) == Some(transaction@),
            None => spec_btc_tx_from_hex(s@) is None,
        },
{
    match decode_hex(s) {
        Some(bytes) => deserialize_transaction(bytes.as_slice()),
        None => None,
    }
}

/// Parses WIF encoded private key and creates a public key from this private key.
pub fn keypair_from_wif(wif: &str) -> (r: Option<(PublicKey, SecretKey)>)
    ensures
        match r {
            Some((public_key, secret_key)) => spec_keypair_from_wif(wif@) == Some(
                (public_key@, secret_key@),
            ),
            None => spec_keypair_from_wif(wif@) is None,
        },
{
    match secret_key_from_wif(wif) {
        Some(secret) => secp_keypair_from_bytes(secret.as_slice()),
        None => None,
    }
}

} // verus!
