//! Helper functions to create and verify segwit input signatures with the
//! sighash all type.

use crate::keys::{is_public_key, is_secret_key, PublicKey, SecretKey};
use crate::transaction::{without_unlocking, Transaction, TransactionView};
use crate::{TxInRef, TxOutValue};
use bitcoin::absolute::LockTime;
use bitcoin::sighash::SighashCache;
use bitcoin::transaction::Version;
use bitcoin::{Amount, EcdsaSighashType, OutPoint, Script, ScriptBuf, Sequence};
use bitcoin::{Transaction as OutsideTransaction, TxIn as OutsideTxIn, TxOut as OutsideTxOut};
use vstd::prelude::*;
use vstd::slice::slice_subrange;

verus! {

/// The digest that `SighashCache::p2wsh_signature_hash` computes with the
/// sighash type `All` for the input at `index` of `transaction`, signed over
/// `script` and the spent amount `value`.
pub uninterp spec fn segwit_sighash_all(
    transaction: TransactionView,
    index: nat,
    script: Seq<u8>,
    value: u64,
) -> Seq<u8>;

/// The signature in DER form that `Secp256k1::sign_ecdsa` makes of the
/// message `digest` with the secret key `secret`.
pub uninterp spec fn ecdsa_signature(digest: Seq<u8>, secret: Seq<u8>) -> Seq<u8>;

/// Whether `secp256k1::ecdsa::Signature::from_der` accepts `data`.
pub uninterp spec fn is_der_signature(data: Seq<u8>) -> bool;

/// Whether `Secp256k1::verify_ecdsa` accepts the signature read from the DER
/// form `signature` for the message `digest` and the public key `public_key`.
pub uninterp spec fn ecdsa_verifies(
    digest: Seq<u8>,
    signature: Seq<u8>,
    public_key: Seq<u8>,
) -> bool;

/// Calls `SighashCache::p2wsh_signature_hash` with the sighash type `All` on
/// the transaction written out in the `bitcoin` crate's types, without what
/// unlocks its inputs.
#[verifier::external_body]
fn sighash_all(transaction: &Transaction, index: usize, script: &[u8], value: u64) -> (r: [u8; 32])
    requires
        index < transaction.input@.len(),
    ensures
        r@ == segwit_sighash_all(without_unlocking(transaction@), index as nat, script@, value),
{
    let input = transaction.input.iter().map(|txin| OutsideTxIn {
        previous_output: OutPoint::new(bitcoin::hashes::Hash::from_byte_array(txin.prev_hash), txin.prev_index),
        sequence: Sequence(txin.sequence),
        ..Default::default()
    }).collect();
    let output = transaction.output.iter().map(|txout| OutsideTxOut {
        value: Amount::from_sat(txout.value),
        script_pubkey: ScriptBuf::from_bytes(txout.script_pubkey.clone()),
    }).collect();
    let lock_time = LockTime::from_consensus(transaction.lock_time);
    let outside = OutsideTransaction { version: Version(transaction.version), lock_time, input, output };
    let digest = SighashCache::new(&outside).p2wsh_signature_hash(index, Script::from_bytes(script), Amount::from_sat(value), EcdsaSighashType::All);
    bitcoin::hashes::Hash::to_byte_array(digest.unwrap())
}

/// Calls `Secp256k1::sign_ecdsa` on an engine made for signing, and
/// `serialize_der` on the signature made.
#[verifier::external_body]
fn ecdsa_sign(digest: &[u8; 32], secret: &[u8; 32]) -> (r: Vec<u8>)
    requires
        is_secret_key(secret@),
    ensures
        r@ == ecdsa_signature(digest@, secret@),
{
    let key = secp256k1::SecretKey::from_slice(secret).unwrap();
    let context = secp256k1::Secp256k1::signing_only();
    context.sign_ecdsa(&secp256k1::Message::from_digest(*digest), &key).serialize_der().to_vec()
}

/// Calls `secp256k1::ecdsa::Signature::from_der` and says whether it accepted the bytes.
#[verifier::external_body]
fn check_der_signature(data: &[u8]) -> (r: bool)
    ensures
        r == is_der_signature(data@),
{
    secp256k1::ecdsa::Signature::from_der(data).is_ok()
}

/// Calls `Secp256k1::verify_ecdsa` on an engine made for verifying, with the
/// signature read from its DER form, and says whether it accepted the signature.
#[verifier::external_body]
fn ecdsa_verify(digest: &[u8; 32], signature: &[u8], public_key: &[u8; 33]) -> (r: bool)
    requires
        is_der_signature(signature@),
        is_public_key(public_key@),
    ensures
        r == ecdsa_verifies(digest@, signature@, public_key@),
{
    let signature = secp256k1::ecdsa::Signature::from_der(signature).unwrap();
    let key = secp256k1::PublicKey::from_slice(public_key).unwrap();
    let context = secp256k1::Secp256k1::verification_only();
    context.verify_ecdsa(&secp256k1::Message::from_digest(*digest), &signature, &key).is_ok()
}

/// The part of a transaction that a signature commits to.
#[derive(Debug, Clone, Copy, PartialEq, Eq, Structural)]
pub enum SigHashType {
    /// Sign all outputs.
    All,
    /// Sign no outputs: anyone can choose the destination.
    NoOutputs,
    /// Sign the output whose index matches this input's index.
    Single,
    /// Sign all outputs but only this input.
    AllPlusAnyoneCanPay,
    /// Sign no outputs and only this input.
    NoOutputsPlusAnyoneCanPay,
    /// Sign one output and only this input.
    SinglePlusAnyoneCanPay,
}

impl SigHashType {
    /// The byte that stands for the type at the end of a signature.
    pub open spec fn spec_to_byte(self) -> u8 {
        match self {
            SigHashType::All => 0x01,
            SigHashType::NoOutputs => 0x02,
            SigHashType::Single => 0x03,
            SigHashType::AllPlusAnyoneCanPay => 0x81,
            SigHashType::NoOutputsPlusAnyoneCanPay => 0x82,
            SigHashType::SinglePlusAnyoneCanPay => 0x83,
        }
    }

    /// The type that a byte at the end of a signature stands for. Only the
    /// bits of `0x9f` count. A value that is none of the six types stands for
    /// `All`, with "anyone can pay" where the top bit is set.
    pub open spec fn spec_from_byte(byte: u8) -> SigHashType {
        let masked = byte & 0x9f;
        if masked == 0x01 {
            SigHashType::All
        } else if masked == 0x02 {
            SigHashType::NoOutputs
        } else if masked == 0x03 {
            SigHashType::Single
        } else if masked == 0x81 {
            SigHashType::AllPlusAnyoneCanPay
        } else if masked == 0x82 {
            SigHashType::NoOutputsPlusAnyoneCanPay
        } else if masked == 0x83 {
            SigHashType::SinglePlusAnyoneCanPay
        } else if masked & 0x80 == 0x80 {
            SigHashType::AllPlusAnyoneCanPay
        } else {
            SigHashType::All
        }
    }

    /// The byte that stands for the type at the end of a signature.
    pub fn to_byte(self) -> (r: u8)
        ensures
            r == self.spec_to_byte(),
    {
        match self {
            SigHashType::All => 0x01,
            SigHashType::NoOutputs => 0x02,
            SigHashType::Single => 0x03,
            SigHashType::AllPlusAnyoneCanPay => 0x81,
            SigHashType::NoOutputsPlusAnyoneCanPay => 0x82,
            SigHashType::SinglePlusAnyoneCanPay => 0x83,
        }
    }

    /// The type that a byte at the end of a signature stands for.
    pub fn from_byte(byte: u8) -> (r: SigHashType)
        ensures
            r == Self::spec_from_byte(byte),
    {
        let masked = byte & 0x9f;
        if masked == 0x01 {
            SigHashType::All
        } else if masked == 0x02 {
            SigHashType::NoOutputs
        } else if masked == 0x03 {
            SigHashType::Single
        } else if masked == 0x81 {
            SigHashType::AllPlusAnyoneCanPay
        } else if masked == 0x82 {
            SigHashType::NoOutputsPlusAnyoneCanPay
        } else if masked == 0x83 {
            SigHashType::SinglePlusAnyoneCanPay
        } else if masked & 0x80 == 0x80 {
            SigHashType::AllPlusAnyoneCanPay
        } else {
            SigHashType::All
        }
    }

    /// Reading the byte of a type gives the type back.
    pub proof fn lemma_from_byte_of_to_byte(self)
        ensures
            Self::spec_from_byte(self.spec_to_byte()) == self,
    {
        assert(0x01u8 & 0x9f == 0x01) by (bit_vector);
        assert(0x02u8 & 0x9f == 0x02) by (bit_vector);
        assert(0x03u8 & 0x9f == 0x03) by (bit_vector);
        assert(0x81u8 & 0x9f == 0x81) by (bit_vector);
        assert(0x82u8 & 0x9f == 0x82) by (bit_vector);
        assert(0x83u8 & 0x9f == 0x83) by (bit_vector);
    }
}

/// The ways in which the curve engine refuses a signature.
#[derive(Debug, Clone, Copy, PartialEq, Eq, Structural)]
pub enum SignatureError {
    /// There are no bytes to read a signature from.
    InvalidMessage,
    /// The bytes are no signature in DER form.
    InvalidSignature,
    /// The signature does not fit the message and the public key.
    IncorrectSignature,
}

/// A signature data with the embedded sighash type byte.
#[derive(Debug, PartialEq, Eq)]
pub struct InputSignature(Vec<u8>);

impl Clone for InputSignature {
    fn clone(&self) -> (r: InputSignature)
        ensures
            r@ == self@,
    {
        proof {
            use_type_invariant(self);
        }
        InputSignature(self.0.clone())
    }
}

impl View for InputSignature {
    type V = Seq<u8>;

    closed spec fn view(&self) -> Seq<u8> {
        self.0@
    }
}

impl InputSignature {
    #[verifier::type_invariant]
    spec fn well_formed(self) -> bool {
        self.0@.len() > 0
    }

    /// The bytes of the signature built from a signature and a sighash type.
    pub open spec fn spec_new(inner: Seq<u8>, sighash_type: SigHashType) -> Seq<u8> {
        inner.push(sighash_type.spec_to_byte())
    }

    /// The signature without the sighash type byte.
    pub open spec fn spec_content(&self) -> Seq<u8> {
        self@.drop_last()
    }

    /// The sighash type that the last byte stands for.
    pub open spec fn spec_sighash_type(&self) -> SigHashType {
        SigHashType::spec_from_byte(self@.last())
    }

    /// Constructs input signature from the given signature data and the given sighash type.
    pub fn new(inner: Vec<u8>, sighash_type: SigHashType) -> (r: InputSignature)
        ensures
            r@ == Self::spec_new(inner@, sighash_type),
            r.spec_content() == inner@,
            r.spec_sighash_type() == sighash_type,
    {
        let ghost content = inner@;
        let mut inner = inner;
        inner.push(sighash_type.to_byte());
        let signature = InputSignature(inner);
        proof {
            lemma_input_signature_accessors(signature, content, sighash_type);
        }
        signature
    }

    /// Returns the signature content in canonical form.
    pub fn content(&self) -> (r: &[u8])
        ensures
            self@.len() > 0,
            r@ == self.spec_content(),
    {
        proof {
            use_type_invariant(self);
        }
        slice_subrange(self.0.as_slice(), 0, self.0.len() - 1)
    }

    /// Returns a sighash type of the given input signature.
    pub fn sighash_type(&self) -> (r: SigHashType)
        ensures
            self@.len() > 0,
            r == self.spec_sighash_type(),
    {
        proof {
            use_type_invariant(self);
        }
        SigHashType::from_byte(self.0[self.0.len() - 1])
    }

    /// All the bytes: the signature and the sighash type byte.
    pub fn as_bytes(&self) -> (r: &[u8])
        ensures
            r@ == self@,
            r@.len() > 0,
    {
        proof {
            use_type_invariant(self);
        }
        self.0.as_slice()
    }

    /// Gives up the bytes: the signature and the sighash type byte.
    pub fn into_bytes(self) -> (r: Vec<u8>)
        ensures
            r@ == self@,
            r@.len() > 0,
    {
        proof {
            use_type_invariant(&self);
        }
        self.0
    }

    /// Borrows the signature.
    pub fn as_signature_ref(&self) -> (r: InputSignatureRef<'_>)
        ensures
            r@ == self@,
    {
        proof {
            use_type_invariant(self);
        }
        InputSignatureRef(self.0.as_slice())
    }
}

/// A borrowed equivalent of the `InputSignature` data type.
/// It can be useful for checking incoming signatures from the unauthorized sources.
#[derive(Debug, Clone, Copy)]
pub struct InputSignatureRef<'a>(&'a [u8]);

impl<'a> View for InputSignatureRef<'a> {
    type V = Seq<u8>;

    closed spec fn view(&self) -> Seq<u8> {
        self.0@
    }
}

impl<'a> InputSignatureRef<'a> {
    #[verifier::type_invariant]
    spec fn well_formed(self) -> bool {
        self.0@.len() > 0
    }

    /// What reading `bytes` as a signature with a sighash type byte gives:
    /// all but the last byte have to be a signature in DER form.
    pub open spec fn spec_from_bytes(bytes: Seq<u8>) -> Result<Seq<u8>, SignatureError> {
        if bytes.len() == 0 {
            Err(SignatureError::InvalidMessage)
        } else if !is_der_signature(bytes.drop_last()) {
            Err(SignatureError::InvalidSignature)
        } else {
            Ok(bytes)
        }
    }

    /// The signature without the sighash type byte.
    pub open spec fn spec_content(&self) -> Seq<u8> {
        self@.drop_last()
    }

    /// The sighash type that the last byte stands for.
    pub open spec fn spec_sighash_type(&self) -> SigHashType {
        SigHashType::spec_from_byte(self@.last())
    }

    /// Tries to construct input signature from the raw bytes.
    pub fn from_bytes(bytes: &'a [u8]) -> (r: Result<InputSignatureRef<'a>, SignatureError>)
        ensures
            match r {
                Ok(signature) => Self::spec_from_bytes(bytes@) == Ok::<Seq<u8>, SignatureError>(
                    signature@,
                ),
                Err(e) => Self::spec_from_bytes(bytes@) == Err::<Seq<u8>, SignatureError>(e),
            },
    {
        if bytes.len() == 0 {
            return Err(SignatureError::InvalidMessage);
        }
        let content = slice_subrange(bytes, 0, bytes.len() - 1);
        if !check_der_signature(content) {
            return Err(SignatureError::InvalidSignature);
        }
        Ok(InputSignatureRef(bytes))
    }

    /// Returns the signature content in canonical form.
    pub fn content(&self) -> (r: &'a [u8])
        ensures
            self@.len() > 0,
            r@ == self.spec_content(),
    {
        proof {
            use_type_invariant(self);
        }
        slice_subrange(self.0, 0, self.0.len() - 1)
    }

    /// Returns a sighash type of the given input signature.
    pub fn sighash_type(&self) -> (r: SigHashType)
        ensures
            self@.len() > 0,
            r == self.spec_sighash_type(),
    {
        proof {
            use_type_invariant(self);
        }
        SigHashType::from_byte(self.0[self.0.len() - 1])
    }

    /// All the bytes: the signature and the sighash type byte.
    pub fn as_bytes(&self) -> (r: &'a [u8])
        ensures
            r@ == self@,
            r@.len() > 0,
    {
        proof {
            use_type_invariant(self);
        }
        self.0
    }

    /// Copies the bytes into a signature of their own.
    pub fn to_input_signature(&self) -> (r: InputSignature)
        ensures
            r@ == self@,
    {
        proof {
            use_type_invariant(self);
        }
        InputSignature(vstd::slice::slice_to_vec(self.0))
    }
}

/// A signature built from signature data and a sighash type gives both back:
/// its content is the signature data and its sighash type is the type given.
pub proof fn lemma_input_signature_accessors(
    signature: InputSignature,
    inner: Seq<u8>,
    sighash_type: SigHashType,
)
    requires
        signature@ == InputSignature::spec_new(inner, sighash_type),
    ensures
        signature.spec_content() == inner,
        signature.spec_sighash_type() == sighash_type,
{
    sighash_type.lemma_from_byte_of_to_byte();
    assert(inner.push(sighash_type.spec_to_byte()).drop_last() =~= inner);
}

/// The digest that is signed for an input.
pub open spec fn spec_signature_hash(txin: TxInRef, script: Seq<u8>, value: TxOutValue) -> Seq<u8> {
    segwit_sighash_all(
        without_unlocking(txin.spec_transaction()@),
        txin.spec_index() as nat,
        script,
        value.spec_amount(txin),
    )
}

/// The signature with its sighash type byte that signing an input gives.
pub open spec fn spec_sign_input(
    txin: TxInRef,
    script: Seq<u8>,
    value: TxOutValue,
    secret_key: Seq<u8>,
) -> Seq<u8> {
    InputSignature::spec_new(
        ecdsa_signature(spec_signature_hash(txin, script, value), secret_key),
        SigHashType::All,
    )
}

/// What checking a signature in DER form against an input gives.
pub open spec fn spec_verify_input_signature(
    txin: TxInRef,
    script: Seq<u8>,
    value: TxOutValue,
    public_key: Seq<u8>,
    signature: Seq<u8>,
) -> Result<(), SignatureError> {
    if !is_der_signature(signature) {
        Err(SignatureError::InvalidSignature)
    } else if !ecdsa_verifies(spec_signature_hash(txin, script, value), signature, public_key) {
        Err(SignatureError::IncorrectSignature)
    } else {
        Ok(())
    }
}

/// Computes the `BIP-143` compliant sighash for a `SIGHASH_ALL` signature for the given input.
pub fn signature_hash(txin: TxInRef, script: &[u8], value: TxOutValue) -> (r: [u8; 32])
    requires
        value.covers(txin),
    ensures
        r@ == spec_signature_hash(txin, script@, value),
{
    let amount = value.amount(txin);
    sighash_all(txin.transaction(), txin.index(), script, amount)
}

/// Computes the `BIP-143` compliant signature for the given input.
pub fn sign_input(
    txin: TxInRef,
    script: &[u8],
    value: TxOutValue,
    secret_key: &SecretKey,
) -> (r: Result<InputSignature, SignatureError>)
    requires
        value.covers(txin),
    ensures
        r matches Ok(signature) && signature@ == spec_sign_input(
            txin,
            script@,
            value,
            secret_key@,
        ) && signature.spec_content() == ecdsa_signature(
            spec_signature_hash(txin, script@, value),
            secret_key@,
        ) && signature.spec_sighash_type() == SigHashType::All,
{
    let sighash = signature_hash(txin, script, value);
    let secret = secret_key.secret_bytes();
    let signature = ecdsa_sign(&sighash, &secret);
    Ok(InputSignature::new(signature, SigHashType::All))
}

/// Checks correctness of the signature for the given input.
pub fn verify_input_signature(
    txin: TxInRef,
    script: &[u8],
    value: TxOutValue,
    public_key: &PublicKey,
    signature: &[u8],
) -> (r: Result<(), SignatureError>)
    requires
        value.covers(txin),
    ensures
        r == spec_verify_input_signature(txin, script@, value, public_key@, signature@),
{
    let sighash = signature_hash(txin, script, value);
    if !check_der_signature(signature) {
        return Err(SignatureError::InvalidSignature);
    }
    let key = public_key.serialize();
    if ecdsa_verify(&sighash, signature, &key) {
        Ok(())
    } else {
        Err(SignatureError::IncorrectSignature)
    }
}

} // verus!
