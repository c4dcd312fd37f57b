//! A native `P2WPK` input signer.

use crate::keys::{is_public_key, PublicKey, SecretKey};
use crate::script::{push_int, push_slice};
use crate::sign::{
    ecdsa_signature, sign_input, signature_hash, spec_sign_input, spec_signature_hash,
    spec_verify_input_signature, verify_input_signature, InputSignature, InputSignatureRef,
    SigHashType, SignatureError,
};
use crate::transaction::{TxIn, TxInView};
use crate::{Network, TxInRef, TxOutValue};
use vstd::prelude::*;

verus! {

/// The 20 bytes that `hash160::Hash::hash` makes of `data`: RIPEMD-160 of SHA-256.
pub uninterp spec fn hash160(data: Seq<u8>) -> Seq<u8>;

/// The text of the address that `Address::p2wpkh` makes of a compressed
/// public key and a network.
pub uninterp spec fn p2wpkh_address(public_key: Seq<u8>, network: Network) -> Seq<char>;

/// The script that a single key is paid with: the witness version 0, then a
/// push of the 20 bytes of the key's hash.
pub open spec fn spec_script_pubkey(public_key: Seq<u8>) -> Seq<u8> {
    seq![0x00u8, 0x14u8] + hash160(public_key)
}

/// The script that is signed for an input paid to a single key: duplicate,
/// hash, push of the 20 bytes of the key's hash, compare, check the signature.
pub open spec fn spec_witness_script(public_key: Seq<u8>) -> Seq<u8> {
    seq![0x76u8, 0xa9u8, 0x14u8] + hash160(public_key) + seq![0x88u8, 0xacu8]
}

/// Calls `hash160::Hash::hash`.
#[verifier::external_body]
fn hash160_of(data: &[u8]) -> (r: [u8; 20])
    ensures
        r@ == hash160(data@),
{
    bitcoin::hashes::Hash::to_byte_array(
        <bitcoin::hashes::hash160::Hash as bitcoin::hashes::Hash>::hash(data),
    )
}

/// Calls `Address::p2wpkh` and writes the address out as text.
#[verifier::external_body]
fn p2wpkh_address_of(public_key: &[u8; 33], network: Network) -> (r: String)
    requires
        is_public_key(public_key@),
    ensures
        r@ == p2wpkh_address(public_key@, network),
{
    let key = bitcoin::CompressedPublicKey::from_slice(public_key).unwrap();
    let network = match network {
        Network::Bitcoin => bitcoin::Network::Bitcoin,
        Network::Testnet => bitcoin::Network::Testnet,
        Network::Testnet4 => bitcoin::Network::Testnet4,
        Network::Signet => bitcoin::Network::Signet,
        Network::Regtest => bitcoin::Network::Regtest,
    };
    bitcoin::Address::p2wpkh(&key, network).to_string()
}

/// Calls `Address::p2pkh` and `script_pubkey` on the address: the script
/// that pays to the hash of the key, the same on every network.
#[verifier::external_body]
fn p2pkh_script_of(public_key: &[u8; 33]) -> (r: Vec<u8>)
    requires
        is_public_key(public_key@),
    ensures
        r@ == spec_witness_script(public_key@),
{
    let key = bitcoin::CompressedPublicKey::from_slice(public_key).unwrap();
    bitcoin::Address::p2pkh(key.pubkey_hash(), bitcoin::NetworkKind::Main).script_pubkey().into_bytes()
}

/// Creates a bitcoin address for the corresponding public key and the bitcoin network.
pub fn address(pk: &PublicKey, network: Network) -> (r: String)
    ensures
        r@ == p2wpkh_address(pk@, network),
{
    let key = pk.serialize();
    p2wpkh_address_of(&key, network)
}

/// Creates a script pubkey for the corresponding public key.
pub fn script_pubkey(pk: &PublicKey) -> (r: Vec<u8>)
    ensures
        r@ == spec_script_pubkey(pk@),
{
    let key = pk.serialize();
    let pk_hash = hash160_of(key.as_slice());
    let mut script: Vec<u8> = Vec::new();
    push_int(&mut script, 0);
    push_slice(&mut script, pk_hash.as_slice());
    proof {
        assert(script@ =~= spec_script_pubkey(pk@));
    }
    script
}

/// An input signer.
///
/// Every call that signs or verifies makes a curve engine of its own: signers
/// share nothing and may be used side by side.
#[derive(Debug)]
pub struct InputSigner {
    public_key: PublicKey,
    network: Network,
}

impl InputSigner {
    /// The public key that the signer spends the outputs of.
    pub closed spec fn spec_public_key(&self) -> Seq<u8> {
        self.public_key@
    }

    /// The network that the signer makes addresses for.
    pub closed spec fn spec_network(&self) -> Network {
        self.network
    }

    /// The witness that spends an input: the signature, then the public key.
    pub open spec fn spec_witness(&self, signature: Seq<u8>) -> Seq<Seq<u8>> {
        seq![signature, self.spec_public_key()]
    }

    /// Creates an input signer for the given public key and network.
    pub fn new(public_key: PublicKey, network: Network) -> (r: InputSigner)
        ensures
            r.spec_public_key() == public_key@,
            r.spec_network() == network,
    {
        InputSigner { public_key, network }
    }

    /// Returns the public key of the signer.
    pub fn public_key(&self) -> (r: PublicKey)
        ensures
            r@ == self.spec_public_key(),
    {
        self.public_key
    }

    /// Returns the network of the signer.
    pub fn network(&self) -> (r: Network)
        ensures
            r == self.spec_network(),
    {
        self.network
    }

    /// Computes the `BIP-143` compliant sighash for a `SIGHASH_ALL` signature for the given input.
    pub fn signature_hash(&self, txin: TxInRef, value: TxOutValue) -> (r: [u8; 32])
        requires
            value.covers(txin),
        ensures
            r@ == spec_signature_hash(txin, spec_witness_script(self.spec_public_key()), value),
    {
        let script = self.witness_script();
        signature_hash(txin, script.as_slice(), value)
    }

    /// Computes the `BIP-143` compliant signature for the given input.
    /// Under the hood this method signs the sighash for the given input with the
    /// given secret key.
    pub fn sign_input(&self, txin: TxInRef, value: TxOutValue, secret_key: &SecretKey) -> (r: Result<
        InputSignature,
        SignatureError,
    >)
        requires
            value.covers(txin),
        ensures
            r matches Ok(signature) && signature@ == spec_sign_input(
                txin,
                spec_witness_script(self.spec_public_key()),
                value,
                secret_key@,
            ) && signature.spec_content() == ecdsa_signature(
                spec_signature_hash(txin, spec_witness_script(self.spec_public_key()), value),
                secret_key@,
            ) && signature.spec_sighash_type() == SigHashType::All,
    {
        let script = self.witness_script();
        sign_input(txin, script.as_slice(), value, secret_key)
    }

    /// Checks correctness of the signature for the given input.
    pub fn verify_input(
        &self,
        txin: TxInRef,
        value: TxOutValue,
        public_key: &PublicKey,
        signature: InputSignatureRef,
    ) -> (r: Result<(), SignatureError>)
        requires
            value.covers(txin),
        ensures
            r == spec_verify_input_signature(
                txin,
                spec_witness_script(self.spec_public_key()),
                value,
                public_key@,
                signature.spec_content(),
            ),
    {
        let script = self.witness_script();
        verify_input_signature(txin, script.as_slice(), value, public_key, signature.content())
    }

    /// Collects the witness data for the given transaction input. Thus, the input becomes spent.
    pub fn spend_input(&self, input: &mut TxIn, signature: InputSignature)
        ensures
            final(input)@ == (TxInView {
                witness: self.spec_witness(signature@),
                ..old(input)@
            }),
    {
        input.witness = self.witness_data(signature.into_bytes());
    }

    fn witness_data(&self, signature: Vec<u8>) -> (r: Vec<Vec<u8>>)
        ensures
            r@.map_values(|item: Vec<u8>| item@) == self.spec_witness(signature@),
    {
        let key = self.public_key.serialize();
        let mut witness: Vec<Vec<u8>> = Vec::new();
        witness.push(signature);
        witness.push(vstd::slice::slice_to_vec(key.as_slice()));
        proof {
            assert(witness@.map_values(|item: Vec<u8>| item@) =~= self.spec_witness(signature@));
        }
        witness
    }

    fn witness_script(&self) -> (r: Vec<u8>)
        ensures
            r@ == spec_witness_script(self.spec_public_key()),
    {
        let key = self.public_key.serialize();
        p2pkh_script_of(&key)
    }
}

} // verus!
