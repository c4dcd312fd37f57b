//! A native `P2WSH` input signer.

use crate::keys::{PublicKey, SecretKey};
use crate::multisig::RedeemScript;
use crate::sign::{
    ecdsa_signature, sign_input, signature_hash, spec_sign_input, spec_signature_hash,
    spec_verify_input_signature, verify_input_signature, InputSignature, SigHashType,
    SignatureError,
};
use crate::transaction::{TxIn, TxInView};
use crate::{Network, TxInRef, TxOutValue};
use vstd::prelude::*;

verus! {

/// The text of the address that `Address::p2wsh` makes of a script and a network.
pub uninterp spec fn p2wsh_address(script: Seq<u8>, network: Network) -> Seq<char>;

/// Calls `Address::p2wsh` and writes the address out as text.
#[verifier::external_body]
fn p2wsh_address_of(script: &[u8], network: Network) -> (r: String)
    ensures
        r@ == p2wsh_address(script@, network),
{
    let network = match network {
        Network::Bitcoin => bitcoin::Network::Bitcoin,
        Network::Testnet => bitcoin::Network::Testnet,
        Network::Testnet4 => bitcoin::Network::Testnet4,
        Network::Signet => bitcoin::Network::Signet,
        Network::Regtest => bitcoin::Network::Regtest,
    };
    bitcoin::Address::p2wsh(bitcoin::Script::from_bytes(script), network).to_string()
}

/// Creates a bitcoin address for the corresponding redeem script and the bitcoin network.
pub fn address(redeem_script: &RedeemScript, network: Network) -> (r: String)
    ensures
        r@ == p2wsh_address(redeem_script@, network),
{
    p2wsh_address_of(redeem_script.as_bytes(), network)
}

/// The bytes of a list of signatures, in the order of the list.
pub open spec fn signature_views(signatures: Seq<InputSignature>) -> Seq<Seq<u8>> {
    signatures.map_values(|signature: InputSignature| signature@)
}

/// An input signer.
///
/// Every call that signs or verifies makes a curve engine of its own: signers
/// share nothing and may be used side by side.
#[derive(Debug)]
pub struct InputSigner {
    script: RedeemScript,
}

impl InputSigner {
    /// The redeem script that the signer spends the outputs of.
    pub closed spec fn spec_script(&self) -> Seq<u8> {
        self.script@
    }

    /// The witness that spends an input: an empty item, which the opcode that
    /// checks the signatures takes off the stack and ignores, the signatures in
    /// the order given, and the redeem script.
    pub open spec fn spec_witness(&self, signatures: Seq<Seq<u8>>) -> Seq<Seq<u8>> {
        seq![Seq::<u8>::empty()] + signatures + seq![self.spec_script()]
    }

    /// Creates an input signer for the given redeem script.
    pub fn new(script: RedeemScript) -> (r: InputSigner)
        ensures
            r.spec_script() == script@,
    {
        InputSigner { script }
    }

    /// Computes the `BIP-143` compliant sighash for a `SIGHASH_ALL` signature for the given input.
    pub fn signature_hash(&self, txin: TxInRef, value: TxOutValue) -> (r: [u8; 32])
        requires
            value.covers(txin),
        ensures
            r@ == spec_signature_hash(txin, self.spec_script(), value),
    {
        signature_hash(txin, self.script.as_bytes(), value)
    }

    /// Computes the `BIP-143` compliant signature for the given input.
    /// Under the hood this method signs the sighash for the given input by the
    /// given secret key.
    pub fn sign_input(&self, txin: TxInRef, value: TxOutValue, secret_key: &SecretKey) -> (r: Result<
        InputSignature,
        SignatureError,
    >)
        requires
            value.covers(txin),
        ensures
            r matches Ok(signature) && signature@ == spec_sign_input(
                txin,
                self.spec_script(),
                value,
                secret_key@,
            ) && signature.spec_content() == ecdsa_signature(
                spec_signature_hash(txin, self.spec_script(), value),
                secret_key@,
            ) && signature.spec_sighash_type() == SigHashType::All,
    {
        sign_input(txin, self.script.as_bytes(), value, secret_key)
    }

    /// Checks correctness of the signature for the given input.
    pub fn verify_input(
        &self,
        txin: TxInRef,
        value: TxOutValue,
        public_key: &PublicKey,
        signature: &[u8],
    ) -> (r: Result<(), SignatureError>)
        requires
            value.covers(txin),
        ensures
            r == spec_verify_input_signature(
                txin,
                self.spec_script(),
                value,
                public_key@,
                signature@,
            ),
    {
        verify_input_signature(txin, self.script.as_bytes(), value, public_key, signature)
    }

    /// Collects the given input signatures into the witness data for the given
    /// transaction input. Thus, the input becomes spent.
    ///
    /// The signatures have to stand in the order in which their public keys
    /// stand in the redeem script: the witness keeps the order given.
    pub fn spend_input(&self, input: &mut TxIn, signatures: Vec<InputSignature>)
        ensures
            final(input)@ == (TxInView {
                witness: self.spec_witness(signature_views(signatures@)),
                ..old(input)@
            }),
    {
        input.witness = self.witness_data(signatures);
    }

    fn witness_data(&self, signatures: Vec<InputSignature>) -> (r: Vec<Vec<u8>>)
        ensures
            r@.map_values(|item: Vec<u8>| item@) == self.spec_witness(signature_views(signatures@)),
    {
        let mut witness_stack: Vec<Vec<u8>> = Vec::new();
        witness_stack.push(Vec::new());
        let mut i: usize = 0;
        while i < signatures.len()
            invariant
                i <= signatures@.len(),
                witness_stack@.len() == i + 1,
                witness_stack@[0]@ == Seq::<u8>::empty(),
                forall|j: int| 0 <= j < i ==> (#[trigger] witness_stack@[j + 1])@ == signatures@[j]@,
            decreases signatures@.len() - i,
        {
            witness_stack.push(vstd::slice::slice_to_vec(signatures[i].as_bytes()));
            i += 1;
        }
        witness_stack.push(vstd::slice::slice_to_vec(self.script.as_bytes()));
        proof {
            let views = witness_stack@.map_values(|item: Vec<u8>| item@);
            let expected = self.spec_witness(signature_views(signatures@));
            assert(views.len() == expected.len());
            assert forall|k: int| 0 <= k < views.len() implies views[k] == expected[k] by {
                if 0 < k <= signatures@.len() {
                    assert(witness_stack@[(k - 1) + 1]@ == signatures@[k - 1]@);
                }
            }
            assert(views =~= expected);
        }
        witness_stack
    }
}

} // verus!
