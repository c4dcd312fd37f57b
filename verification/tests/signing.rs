use bitcoin::hashes::Hash as _;
use btc_transaction_utils::keys::{PublicKey, SecretKey};
use btc_transaction_utils::multisig::RedeemScriptBuilder;
use btc_transaction_utils::sign::{SigHashType, SignatureError};
use btc_transaction_utils::test_data::secp_keypair_from_bytes;
use btc_transaction_utils::transaction::{Transaction, TxIn, TxOut};
use btc_transaction_utils::{
    p2wpk, p2wsh, InputSignature, InputSignatureRef, Network, TxInRef, TxOutValue,
};
use rand::{Rng, SeedableRng, StdRng};

fn secp_gen_keypair_with_rng<R: Rng>(rng: &mut R) -> (PublicKey, SecretKey) {
    loop {
        let mut data = [0u8; 32];
        rng.fill_bytes(&mut data);
        if let Some(keypair) = secp_keypair_from_bytes(&data) {
            return keypair;
        }
    }
}

fn outside_tx_from_hex(s: &str) -> bitcoin::Transaction {
    let bytes = hex::decode(s).unwrap();
    bitcoin::consensus::deserialize(&bytes).unwrap()
}

fn btc_tx_from_hex(s: &str) -> Transaction {
    btc_transaction_utils::test_data::btc_tx_from_hex(s).unwrap()
}

fn txid_from_hex(s: &str) -> [u8; 32] {
    outside_tx_from_hex(s).compute_txid().to_byte_array()
}

fn script_of_address(address: &str) -> Vec<u8> {
    address
        .parse::<bitcoin::Address<bitcoin::address::NetworkUnchecked>>()
        .unwrap()
        .assume_checked()
        .script_pubkey()
        .to_bytes()
}

fn op_return(data: &[u8]) -> Vec<u8> {
    bitcoin::blockdata::script::Builder::new()
        .push_opcode(bitcoin::blockdata::opcodes::all::OP_RETURN)
        .push_slice(<&bitcoin::blockdata::script::PushBytes>::try_from(data).unwrap())
        .into_script()
        .to_bytes()
}

const P2WPK_PREV_TX: &str =
    "02000000000101beccab33bc72bfc81b63fdec8a4a9a4719e4418bdb7b20e47b02074dc42f2d800000000\
     017160014f3b1b3819c1290cd5d675c1319dc7d9d98d571bcfeffffff02dceffa0200000000160014368c\
     6b7c38f0ff0839bf78d77544da96cb685bf28096980000000000160014284175e336fa10865fb4d1351c9\
     e18e730f5d6f90247304402207c893c85d75e2230dde04f5a1e2c83c4f0b7d93213372746eb2227b06826\
     0d840220705484b6ec70a8fc0d1f80c3a98079602595351b7a9bca7caddb9a6adb0a3440012103150514f\
     05f3e3f40c7b404b16f8a09c2c71bad3ba8da5dd1e411a7069cc080a004b91300";

const P2WSH_PREV_TX: &str =
    "02000000000101f8c16000cc59f9505046303944d42a6c264a322f80b46bb436115b6e306ba9950000000\
     000feffffff02f07dc81600000000160014f65eb9d72a8475dd8e26f4fa748796e211aa88691027000000\
     00000022002001fb25c3db04ca5580da43a7d38dd994650d9aa6d6ee075b4578388deed338ed024730440\
     2206b5f211cd7f9b89e80c734b61113c33f437ba153e7ba6bc275eed857e54fcb260220038562e88b805f\
     0cdfd4873ab3579d52268babe6af9c49086c00343187cdf28a012103979dff5cd9045f4b6fa454d2bc535\
     7586a85d4789123df45f83522963d94e3217fb91300";

fn unsigned_transaction(prev_tx_hex: &str, message: &[u8]) -> Transaction {
    Transaction {
        version: 2,
        lock_time: 0,
        input: vec![TxIn {
            prev_hash: txid_from_hex(prev_tx_hex),
            prev_index: 1,
            script_sig: Vec::default(),
            sequence: 0xFFFFFFFF,
            witness: Vec::default(),
        }],
        output: vec![TxOut {
            value: 0,
            script_pubkey: op_return(message),
        }],
    }
}

#[test]
fn test_native_segwit() {
    let mut rng: StdRng = SeedableRng::from_seed([1, 2, 3, 4].as_ref());
    let (pk, sk) = secp_gen_keypair_with_rng(&mut rng);

    let prev_tx = btc_tx_from_hex(P2WPK_PREV_TX);
    assert_eq!(prev_tx.output[1].script_pubkey, p2wpk::script_pubkey(&pk));

    // Unsigned transaction.
    let mut transaction = unsigned_transaction(P2WPK_PREV_TX, b"Hello Exonum!");
    // Makes signature.
    let signer = p2wpk::InputSigner::new(pk, Network::Testnet);
    let signature = signer
        .sign_input(TxInRef::new(&transaction, 0), TxOutValue::from(&prev_tx), &sk)
        .unwrap();
    // Verifies signature.
    signer
        .verify_input(
            TxInRef::new(&transaction, 0),
            TxOutValue::from(&prev_tx),
            &pk,
            signature.as_signature_ref(),
        )
        .expect("Signature should be correct");
    // Signs transaction.
    signer.spend_input(&mut transaction.input[0], signature);
    // Checks output.
    let expected_tx = btc_tx_from_hex(
        "0200000000010145f4a039a4bd6cc753ec02a22498b98427c6c288244340fff9d2abb5c63e48390100000\
         000ffffffff0100000000000000000f6a0d48656c6c6f2045786f6e756d2102483045022100bdc1be9286\
         2281061a14f7153dd57b7b3befa2b98fe85ae5d427d3921fe165ca02202f259a63f965f6d7f0503584b46\
         3ce4b67c09b5a2e99c27f236f7a986743a94a0121031cf96b4fef362af7d86ee6c7159fa89485730dac8e\
         3090163dd0c282dbc84f2200000000",
    );
    assert_eq!(transaction, expected_tx);
}

#[test]
fn test_multisig_native_segwit() {
    let total_count = 18;
    let quorum = 12;

    let mut rng: StdRng = SeedableRng::from_seed([1, 2, 3, 4].as_ref());
    let keypairs = (0..total_count)
        .into_iter()
        .map(|_| secp_gen_keypair_with_rng(&mut rng))
        .collect::<Vec<_>>();

    let redeem_script =
        RedeemScriptBuilder::with_public_keys(keypairs.iter().map(|x| x.0).collect())
            .quorum(quorum)
            .to_script()
            .unwrap();

    let prev_tx = btc_tx_from_hex(P2WSH_PREV_TX);
    assert_eq!(
        prev_tx.output[1].script_pubkey,
        script_of_address(&p2wsh::address(&redeem_script, Network::Testnet))
    );

    // Unsigned transaction.
    let mut transaction = unsigned_transaction(P2WSH_PREV_TX, b"Hello Exonum with multisig!");

    // Signs transaction.
    let signer = p2wsh::InputSigner::new(redeem_script.clone());
    let signatures = keypairs[0..quorum]
        .iter()
        .map(|keypair| {
            let txin = TxInRef::new(&transaction, 0);
            let signature = signer
                .sign_input(txin, TxOutValue::from(&prev_tx), &keypair.1)
                .unwrap();
            signer
                .verify_input(txin, TxOutValue::from(&prev_tx), &keypair.0, signature.content())
                .unwrap();
            signature
        })
        .collect::<Vec<_>>();
    signer.spend_input(&mut transaction.input[0], signatures);
    // Checks output.
    assert_eq!(
        transaction,
        btc_tx_from_hex(
            "02000000000101c4eb8102889b009f55cca8a1a07f3ea388843d6afa4bd77990d2190bb9248f92010\
             0000000ffffffff0100000000000000001d6a1b48656c6c6f2045786f6e756d2077697468206d756c\
             7469736967210e0047304402200fbebae9eabf9b2c33bb6112a821317e0f676c44aa7814d145bb604\
             5bfb77bce022044df3307ce0a1a70d1d0b62432dba42d7e4aeaabe0290f5474509658a1196e330147\
             30440220494baff1971f5a9b3ec63015466551a0acc185de8fc44228e3c4726550749abe02203d72b\
             5032b8b88d3294b547b7bfe4e82f75d4e8268e64f5751b65ba0cc66efbb01473044022058eee8c7fb\
             b81a471e4c71f7722e933297dfeaccc9fa86cac2a3aa7f0a78c17b022050fd3566953cb433471284c\
             061285f51a118c51a46d62d92fe7c7d89434dc8f30147304402203c1e6392beda5bd01cf3ce8e4b78\
             f6e21687113137a791739f53ba5459171d5302200362ee0d9981797b89133c5ade65f9bcb46af169a\
             fea15d303d1b55eabbdedfb01483045022100f4be0af94fb9fa74893439378e836b3e4b81aeb0edd4\
             7769d0177c1db6f37fdb02202652bcea0a3e0b2df754354c45d4fe349c5fd44e47e98daec9202d8dd\
             2bb89490147304402204238210b1719108ea514ed59d3a56136ddb1cd3c99227156db45aa583881b2\
             c3022039cfc5801d9b785ea544651dcf22e39c2ed6f3f4b3f5bda4858236404934285a01473044022\
             02741c8bbffb09432276d80fcfafb6e3c294a635fb09f27002084a1086fab19e202203bdaec272515\
             9c9d9a7126525345ae51838d0052acdba6b070fba096aa46680e01473044022032894b2a78f9f0cd9\
             5543f9d56a233a469ce2448f994bd966ca0ff38b18eac880220101689725199b25946f19eed1437d4\
             8f6f6714c062c22ce94a6e222e4fe01b6c01483045022100acee27e70ac1dbd4fb07e25bb3095cba8\
             58c2cee8169ac55d4ee8da10a00742b02200b5a6ecdf5d375d561a53862e792136c10ed0287ffc9a8\
             de52f45ab1fc3dbf770147304402204f3778dae6b8166bd667a59c8d30b9eb3b8572a2aa3c1197873\
             94ce4bbb58ae5022064b4df41b2de281082fde6b2d1a4e25212c10f6011bbb048d1c54ddb91e33dfa\
             01473044022060873642a76f8dfc36afcb5bd15a07da341ab0407f880e6a99d9ece22bca825902207\
             cfb5ce2fea244355d0c9e589e91f626b1ba90ebfe5eff33a2e8e5706f5f36970147304402201ffe90\
             90290e0a1a3cad7bc276a35da219528dd1b82c25b1a9ed190453925a59022004caee4a37ffe322fd5\
             e45f25d42c65565be70a326edb38ba6d6f1a60332154e01fd68025c21031cf96b4fef362af7d86ee6\
             c7159fa89485730dac8e3090163dd0c282dbc84f2221028839757bba9bdf46ae553c124479e5c3ded\
             609495f3e93e88ab23c0f559e8be521035c70ffb21d1b454ec650e511e76f6bd3fe76f49c471522ee\
             187abac8d0131a18210234acd7dee22bc23688beed0c7e42c0930cfe024204b7298b0b59d0e76a464\
             76521033897e8dd88ee04cb42b69838c3167471880da23944c10eb9f67de2b5ca32a9d121027a715c\
             f0aeec55482c1d42bfeb75c8f54348ec8b0ca0f9b535ed50a739b8ad632103a2be0380e248ec36401\
             e99680e0fb4f8c03a0a5e00d5dda107aee6cba77b639521038bdb47da82981776e8b0e5d4175f2793\
             0339a32e77ee7052ec51a1f2f0a46e88210312c4fb516caeb5eaec8ffdeecd4a507b69d6808651ae0\
             2a4a61165cc56bfe55121039e021ca4d7969e5db181e0905b9baab2afe395e84587b588a6b039207c\
             911355210259c9f752846c7bd514a042d53ea305f2d4ca7873cb21937dc6b5e82afbb8fb922102c52\
             c3dc6e080ea4e74ba2e6797548bd79a692a01baeba1c757a18fd0ef519fb42102f5010ab66dd7a8dc\
             06caefeceb9bb7e6e42c5d4afdab527a2f02d87b758920612103efbcec8bcc6ea4e58b44214b14eae\
             2677399c28df8bb81fcd120cb4c88ce3bd92103e88aa50f0d7f43cb3171a69675385f130c6abafaca\
             dde87fc84d5a194da5ad9c21025ed88603b59882c3ec6ef43c0b33ac9db315ecca8e7073e60d9b561\
             45fc0efa02103643277862c4a8ab27913e3d2bcea109b6637c7454a03410aac8ccad445e81a502103\
             380785c3e1c105e366ff445227cdde68e6a6461d6793a1437db847ecd04129dc0112ae00000000"
        )
    );
    // Verifies first signature.
    let public_key = redeem_script.content().public_keys[0];
    let signature = &transaction.input[0].witness[1];
    let signer = p2wsh::InputSigner::new(redeem_script);
    signer
        .verify_input(
            TxInRef::new(&transaction, 0),
            TxOutValue::from(&prev_tx),
            &public_key,
            &signature.split_last().unwrap().1,
        )
        .expect("Signature should be correct");
}

#[test]
fn test_input_signature_ref_incorrect() {
    let bytes = b"abacaba";
    InputSignatureRef::from_bytes(bytes).expect_err("Signature should be incorrect");
}

#[test]
fn test_input_signature_ref_correct() {
    let bytes = hex::decode(
        "304402201538279618a4626653775069b43d4315c7d2ff30008d339d0ed31ff41e628e71022028f3182fc39df\
         28201ca4d7d489aece7bc5bc6bfe05b09b6a9d3b70bf5f3743101",
    )
    .unwrap();
    InputSignatureRef::from_bytes(&bytes).expect("Signature should be correct");
}

#[test]
fn any_quorum_of_the_keys_signs_and_verifies() {
    let mut rng: StdRng = SeedableRng::from_seed([1, 2, 3, 4].as_ref());
    let keypairs = (0..18)
        .map(|_| secp_gen_keypair_with_rng(&mut rng))
        .collect::<Vec<_>>();
    let redeem_script =
        RedeemScriptBuilder::with_public_keys(keypairs.iter().map(|x| x.0).collect())
            .quorum(12)
            .to_script()
            .unwrap();
    let content = redeem_script.content();
    assert_eq!(content.quorum, 12);
    assert_eq!(content.public_keys, keypairs.iter().map(|x| x.0).collect::<Vec<_>>());

    let prev_tx = btc_tx_from_hex(P2WSH_PREV_TX);
    let mut transaction = unsigned_transaction(P2WSH_PREV_TX, b"Hello Exonum with multisig!");
    let signer = p2wsh::InputSigner::new(redeem_script.clone());
    let chosen = [0usize, 2, 3, 5, 7, 8, 10, 11, 13, 14, 16, 17];
    let mut signatures = Vec::new();
    for at in chosen {
        let txin = TxInRef::new(&transaction, 0);
        let signature = signer
            .sign_input(txin, TxOutValue::Amount(10000), &keypairs[at].1)
            .unwrap();
        assert_eq!(signature.sighash_type(), SigHashType::All);
        assert_eq!(
            signer.verify_input(txin, TxOutValue::from(&prev_tx), &keypairs[at].0, signature.content()),
            Ok(())
        );
        // A signature fits the key that made it and no other.
        assert_eq!(
            signer.verify_input(
                txin,
                TxOutValue::from(&prev_tx),
                &keypairs[(at + 1) % 18].0,
                signature.content()
            ),
            Err(SignatureError::IncorrectSignature)
        );
        InputSignatureRef::from_bytes(signature.as_bytes()).unwrap();
        signatures.push(signature);
    }
    let expected = signatures
        .iter()
        .map(|signature| signature.as_bytes().to_vec())
        .collect::<Vec<_>>();
    signer.spend_input(&mut transaction.input[0], signatures);
    let witness = &transaction.input[0].witness;
    assert_eq!(witness.len(), 14);
    assert!(witness[0].is_empty());
    assert_eq!(&witness[1..13], &expected[..]);
    assert_eq!(witness[13], redeem_script.as_bytes());
    // What unlocks the input is no part of what was signed.
    for (at, signature) in chosen.iter().zip(&expected) {
        assert_eq!(
            signer.verify_input(
                TxInRef::new(&transaction, 0),
                TxOutValue::PrevOut(&prev_tx.output[1]),
                &keypairs[*at].0,
                &signature[..signature.len() - 1]
            ),
            Ok(())
        );
    }
}

#[test]
fn changed_signature_of_a_single_key_does_not_verify() {
    let mut rng: StdRng = SeedableRng::from_seed([1, 2, 3, 4].as_ref());
    let (pk, sk) = secp_gen_keypair_with_rng(&mut rng);
    let prev_tx = btc_tx_from_hex(P2WPK_PREV_TX);
    let transaction = unsigned_transaction(P2WPK_PREV_TX, b"Hello Exonum!");
    let signer = p2wpk::InputSigner::new(pk, Network::Testnet);
    let signature = signer
        .sign_input(TxInRef::new(&transaction, 0), TxOutValue::from(&prev_tx), &sk)
        .unwrap();
    let bytes = signature.as_bytes().to_vec();
    for at in 0..bytes.len() - 1 {
        let mut changed = bytes.clone();
        changed[at] ^= 0xff;
        let changed = InputSignature::new(changed[..changed.len() - 1].to_vec(), SigHashType::All);
        assert!(signer
            .verify_input(
                TxInRef::new(&transaction, 0),
                TxOutValue::from(&prev_tx),
                &pk,
                changed.as_signature_ref()
            )
            .is_err());
    }
}
