//! A transaction with its inputs and outputs, as plain values.

use vstd::prelude::*;

verus! {

/// A transaction output as a mathematical value.
pub struct TxOutView {
    pub value: u64,
    pub script_pubkey: Seq<u8>,
}

/// A transaction input as a mathematical value.
pub struct TxInView {
    pub prev_hash: Seq<u8>,
    pub prev_index: u32,
    pub script_sig: Seq<u8>,
    pub sequence: u32,
    pub witness: Seq<Seq<u8>>,
}

/// A transaction as a mathematical value.
pub struct TransactionView {
    pub version: i32,
    pub lock_time: u32,
    pub input: Seq<TxInView>,
    pub output: Seq<TxOutView>,
}

/// The transaction without what unlocks its inputs: every unlocking script
/// and every witness is empty. This is the part that a segwit signature covers.
pub open spec fn without_unlocking(transaction: TransactionView) -> TransactionView {
    TransactionView {
        input: transaction.input.map_values(
            |txin: TxInView|
                TxInView { script_sig: Seq::empty(), witness: Seq::empty(), ..txin },
        ),
        ..transaction
    }
}

/// What unlocks an input is no part of what a segwit signature covers: a new
/// witness for one input leaves `without_unlocking` as it was.
pub proof fn lemma_witness_is_not_signed(
    transaction: TransactionView,
    index: int,
    witness: Seq<Seq<u8>>,
)
    requires
        0 <= index < transaction.input.len(),
    ensures
        without_unlocking(
            TransactionView {
                input: transaction.input.update(
                    index,
                    TxInView { witness, ..transaction.input[index] },
                ),
                ..transaction
            },
        ) == without_unlocking(transaction),
{
    let input = transaction.input.update(index, TxInView { witness, ..transaction.input[index] });
    let after = without_unlocking(TransactionView { input, ..transaction });
    assert(after.input =~= without_unlocking(transaction).input);
}

/// A transaction output: an amount and the script that locks it.
#[derive(Debug, Clone, PartialEq, Eq)]
pub struct TxOut {
    /// The amount in satoshis.
    pub value: u64,
    /// The script that a spender has to satisfy.
    pub script_pubkey: Vec<u8>,
}

/// A transaction input: the output that it spends and what unlocks it.
#[derive(Debug, Clone, PartialEq, Eq)]
pub struct TxIn {
    /// The identifier of the transaction that holds the spent output.
    pub prev_hash: [u8; 32],
    /// The index of the spent output in that transaction.
    pub prev_index: u32,
    /// The script that unlocks a legacy output; empty for a native segwit input.
    pub script_sig: Vec<u8>,
    /// The sequence number.
    pub sequence: u32,
    /// The witness stack.
    pub witness: Vec<Vec<u8>>,
}

/// A transaction.
#[derive(Debug, Clone, PartialEq, Eq)]
pub struct Transaction {
    /// The version of the transaction format.
    pub version: i32,
    /// The block height or time before which the transaction is not valid.
    pub lock_time: u32,
    /// The inputs.
    pub input: Vec<TxIn>,
    /// The outputs.
    pub output: Vec<TxOut>,
}

impl View for TxOut {
    type V = TxOutView;

    open spec fn view(&self) -> TxOutView {
        TxOutView { value: self.value, script_pubkey: self.script_pubkey@ }
    }
}

impl View for TxIn {
    type V = TxInView;

    open spec fn view(&self) -> TxInView {
        TxInView {
            prev_hash: self.prev_hash@,
            prev_index: self.prev_index,
            script_sig: self.script_sig@,
            sequence: self.sequence,
            witness: self.witness@.map_values(|item: Vec<u8>| item@),
        }
    }
}

impl View for Transaction {
    type V = TransactionView;

    open spec fn view(&self) -> TransactionView {
        TransactionView {
            version: self.version,
            lock_time: self.lock_time,
            input: self.input@.map_values(|txin: TxIn| txin@),
            output: self.output@.map_values(|txout: TxOut| txout@),
        }
    }
}

} // verus!
