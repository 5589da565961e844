use std::cell::Cell;

use bitcoin::hashes::Hash as _;
use wallet::der::sign_to_der;
use wallet::tx::{
    Address, AddressType, EcdsaCurve, EcdsaKeyId, Error, OutPoint, Transaction, TxIn, TxOut,
};
use wallet::utils::{
    apply_signatures, check_tx_hashes_len, mock_signer, sign_transaction_p2pkh,
    signature_digests, validate_p2pkh_address, witnesses_fit_limit,
};

fn script_of(kind: AddressType) -> Vec<u8> {
    match kind {
        AddressType::P2pkh => {
            let mut script = vec![0x76, 0xa9, 0x14];
            script.extend(vec![0xaa; 20]);
            script.extend(vec![0x88, 0xac]);
            script
        }
        AddressType::P2sh => {
            let mut script = vec![0xa9, 0x14];
            script.extend(vec![0xaa; 20]);
            script.push(0x87);
            script
        }
        _ => {
            let mut script = vec![0x00, 0x14];
            script.extend(vec![0xaa; 20]);
            script
        }
    }
}

fn address(kind: AddressType) -> Address {
    Address { kind: Some(kind), script_pubkey: script_of(kind) }
}

fn unsigned(inputs: u8) -> Transaction {
    let mut input = Vec::new();
    for tag in 0..inputs {
        input.push(TxIn {
            previous_output: OutPoint { txid: [tag + 1; 32], vout: tag as u32 },
            script_sig: Vec::new(),
            sequence: 0xFFFF_FFFF,
            witness: Vec::new(),
        });
    }
    let output = vec![
        TxOut { value: 1_000, script_pubkey: script_of(AddressType::P2sh) },
        TxOut { value: 7_000, script_pubkey: script_of(AddressType::P2pkh) },
    ];
    Transaction { version: 1, lock_time: 0, input, output }
}

fn outside(tx: &Transaction) -> bitcoin::Transaction {
    bitcoin::Transaction {
        version: bitcoin::transaction::Version(tx.version),
        lock_time: bitcoin::absolute::LockTime::from_consensus(tx.lock_time),
        input: tx
            .input
            .iter()
            .map(|i| bitcoin::TxIn {
                previous_output: bitcoin::OutPoint::new(
                    bitcoin::Txid::from_byte_array(i.previous_output.txid),
                    i.previous_output.vout,
                ),
                script_sig: bitcoin::ScriptBuf::from_bytes(i.script_sig.clone()),
                sequence: bitcoin::Sequence(i.sequence),
                witness: bitcoin::Witness::from_slice(&i.witness),
            })
            .collect(),
        output: tx
            .output
            .iter()
            .map(|o| bitcoin::TxOut {
                value: bitcoin::Amount::from_sat(o.value),
                script_pubkey: bitcoin::ScriptBuf::from_bytes(o.script_pubkey.clone()),
            })
            .collect(),
    }
}

fn key_id() -> EcdsaKeyId {
    EcdsaKeyId { curve: EcdsaCurve::Secp256k1, name: String::from("key_1") }
}

fn raw_signature(index: usize) -> Vec<u8> {
    let mut raw = vec![0x11u8; 64];
    raw[0] = if index % 2 == 0 { 0x7f } else { 0x80 };
    raw[32] = 0x90 + index as u8;
    raw
}

fn expected_script(raw: &[u8], public_key: &[u8]) -> Vec<u8> {
    let mut der = sign_to_der(raw.to_vec());
    der.push(0x01);
    let mut script = vec![der.len() as u8];
    script.extend(der);
    script.push(public_key.len() as u8);
    script.extend(public_key.to_vec());
    script
}

#[test]
fn only_pay_to_public_key_hash_is_accepted() {
    assert!(validate_p2pkh_address(&address(AddressType::P2pkh)).is_ok());
    for kind in [
        AddressType::P2sh,
        AddressType::P2wpkh,
        AddressType::P2wsh,
        AddressType::P2tr,
        AddressType::P2a,
    ] {
        assert!(matches!(
            validate_p2pkh_address(&address(kind)),
            Err(Error::UnsupportedAddressType)
        ));
    }
    let unknown = Address { kind: None, script_pubkey: script_of(AddressType::P2pkh) };
    assert!(matches!(validate_p2pkh_address(&unknown), Err(Error::UnsupportedAddressType)));
}

#[test]
fn the_mock_signer_answers_with_64_bytes_of_255() {
    let signature = mock_signer(&Vec::new(), &EcdsaKeyId::default(), &[7u8; 32]);
    assert_eq!(signature, vec![255u8; 64]);
}

#[test]
fn the_default_key_is_the_unnamed_one() {
    let key = EcdsaKeyId::default();
    assert_eq!(key.curve, EcdsaCurve::Secp256k1);
    assert_eq!(key.name, "");
}

#[test]
fn digests_are_the_legacy_signature_hashes() {
    let sender = address(AddressType::P2pkh);
    let tx = unsigned(3);
    let digests = signature_digests(&sender, &tx).unwrap();
    assert_eq!(digests.len(), 3);
    let reference = outside(&tx);
    let cache = bitcoin::sighash::SighashCache::new(&reference);
    let script = bitcoin::ScriptBuf::from_bytes(sender.script_pubkey.clone());
    for (index, digest) in digests.iter().enumerate() {
        let expected = cache.legacy_signature_hash(index, &script, 1).unwrap();
        assert_eq!(digest, &expected.to_byte_array());
    }
    assert_ne!(digests[0], digests[1]);
    assert_ne!(digests[1], digests[2]);
    assert!(check_tx_hashes_len(&tx, &digests).is_ok());
}

#[test]
fn digests_are_refused_for_another_kind_of_address() {
    let tx = unsigned(2);
    assert!(matches!(
        signature_digests(&address(AddressType::P2wpkh), &tx),
        Err(Error::UnsupportedAddressType)
    ));
}

#[test]
fn digest_count_must_match_input_count() {
    let tx = unsigned(2);
    assert!(check_tx_hashes_len(&tx, &[[0u8; 32], [1u8; 32]]).is_ok());
    assert!(matches!(
        check_tx_hashes_len(&tx, &[[0u8; 32]]),
        Err(Error::InputOutputCountMismatch)
    ));
    assert!(matches!(
        check_tx_hashes_len(&tx, &[[0u8; 32]; 3]),
        Err(Error::InputOutputCountMismatch)
    ));
    assert!(check_tx_hashes_len(&unsigned(0), &[]).is_ok());
}

#[test]
fn signing_asks_once_per_input_in_order_and_fills_the_scripts() {
    let sender = address(AddressType::P2pkh);
    let public_key = vec![0x02u8; 33];
    let mut tx = unsigned(3);
    tx.input[1].witness = vec![vec![1, 2, 3]];
    let digests = signature_digests(&sender, &tx).unwrap();
    let calls = Cell::new(0usize);
    let path = vec![vec![9u8, 8, 7]];
    let signer = |p: &Vec<Vec<u8>>, k: &EcdsaKeyId, d: &[u8; 32]| -> Vec<u8> {
        let index = calls.get();
        assert_eq!(p, &vec![vec![9u8, 8, 7]]);
        assert_eq!(k.name, "key_1");
        assert_eq!(d, &digests[index]);
        calls.set(index + 1);
        raw_signature(index)
    };
    let signed =
        sign_transaction_p2pkh(&public_key, &sender, tx.clone(), key_id(), path, signer).unwrap();
    assert_eq!(calls.get(), 3);
    assert_eq!(signed.version, tx.version);
    assert_eq!(signed.lock_time, tx.lock_time);
    assert_eq!(signed.input.len(), 3);
    for index in 0..3 {
        let input = &signed.input[index];
        assert_eq!(input.previous_output.txid, tx.input[index].previous_output.txid);
        assert_eq!(input.previous_output.vout, tx.input[index].previous_output.vout);
        assert_eq!(input.sequence, 0xFFFF_FFFF);
        assert!(input.witness.is_empty());
        assert_eq!(input.script_sig, expected_script(&raw_signature(index), &public_key));
    }
    assert_eq!(signed.input[0].script_sig.len(), 1 + 72 + 1 + 33);
    assert_eq!(signed.input[1].script_sig.len(), 1 + 73 + 1 + 33);
    assert_eq!(signed.output.len(), 2);
    assert_eq!(signed.output[0].value, 1_000);
    assert_eq!(signed.output[1].script_pubkey, script_of(AddressType::P2pkh));
}

#[test]
fn the_unlocking_script_is_what_the_script_builder_writes() {
    let sender = address(AddressType::P2pkh);
    let public_key = vec![0x03u8; 33];
    let signed = sign_transaction_p2pkh(
        &public_key,
        &sender,
        unsigned(1),
        key_id(),
        Vec::new(),
        mock_signer,
    )
    .unwrap();
    let mut signature = sign_to_der(vec![255u8; 64]);
    signature.push(0x01);
    let signature = bitcoin::script::PushBytesBuf::try_from(signature).unwrap();
    let key = bitcoin::script::PushBytesBuf::try_from(public_key).unwrap();
    let expected =
        bitcoin::script::Builder::new().push_slice(signature).push_slice(key).into_bytes();
    assert_eq!(signed.input[0].script_sig, expected);
    assert_eq!(expected.len(), 1 + 73 + 1 + 33);
    assert_eq!(expected[0], 73);
    assert_eq!(expected[74], 33);
}

#[test]
fn longer_keys_are_pushed_with_longer_length_fields() {
    let sender = address(AddressType::P2pkh);
    for (len, head) in [
        (0usize, vec![0x00u8]),
        (75, vec![0x4b]),
        (76, vec![0x4c, 76]),
        (255, vec![0x4c, 255]),
        (256, vec![0x4d, 0x00, 0x01]),
        (65_535, vec![0x4d, 0xff, 0xff]),
        (65_536, vec![0x4e, 0x00, 0x00, 0x01, 0x00]),
    ] {
        let public_key = vec![0x05u8; len];
        let signed = sign_transaction_p2pkh(
            &public_key,
            &sender,
            unsigned(1),
            key_id(),
            Vec::new(),
            mock_signer,
        )
        .unwrap();
        let script = &signed.input[0].script_sig;
        assert_eq!(script.len(), 74 + head.len() + len);
        assert_eq!(&script[74..74 + head.len()], &head[..]);
        assert_eq!(&script[74 + head.len()..], &public_key[..]);
    }
}

#[test]
fn no_signing_call_is_made_for_an_unsupported_address() {
    let public_key = vec![0x02u8; 33];
    for kind in [AddressType::P2sh, AddressType::P2wpkh, AddressType::P2tr] {
        let calls = Cell::new(0usize);
        let signer = |_p: &Vec<Vec<u8>>, _k: &EcdsaKeyId, _d: &[u8; 32]| -> Vec<u8> {
            calls.set(calls.get() + 1);
            vec![1u8; 64]
        };
        let result = sign_transaction_p2pkh(
            &public_key,
            &address(kind),
            unsigned(2),
            key_id(),
            Vec::new(),
            signer,
        );
        assert!(matches!(result, Err(Error::UnsupportedAddressType)));
        assert_eq!(calls.get(), 0);
    }
}

#[test]
fn a_malformed_signature_fails_the_whole_signing() {
    let sender = address(AddressType::P2pkh);
    let public_key = vec![0x02u8; 33];
    for bad in [0usize, 63, 65] {
        let calls = Cell::new(0usize);
        let signer = |_p: &Vec<Vec<u8>>, _k: &EcdsaKeyId, _d: &[u8; 32]| -> Vec<u8> {
            let index = calls.get();
            calls.set(index + 1);
            if index == 1 {
                vec![1u8; bad]
            } else {
                vec![1u8; 64]
            }
        };
        let result =
            sign_transaction_p2pkh(&public_key, &sender, unsigned(3), key_id(), Vec::new(), signer);
        assert!(matches!(result, Err(Error::SigningBackendError)));
        assert_eq!(calls.get(), 2);
    }
}

#[test]
fn signatures_collected_elsewhere_are_put_in_place() {
    let sender = address(AddressType::P2pkh);
    let public_key = vec![0x02u8; 33];
    let tx = unsigned(2);
    let signatures = vec![raw_signature(0), raw_signature(1)];
    let signed = apply_signatures(&public_key, &sender, tx.clone(), &signatures).unwrap();
    let path = Vec::new();
    let calls = Cell::new(0usize);
    let signer = |_p: &Vec<Vec<u8>>, _k: &EcdsaKeyId, _d: &[u8; 32]| -> Vec<u8> {
        let index = calls.get();
        calls.set(index + 1);
        raw_signature(index)
    };
    let same = sign_transaction_p2pkh(&public_key, &sender, tx, key_id(), path, signer).unwrap();
    assert_eq!(signed.input.len(), 2);
    for index in 0..2 {
        assert_eq!(signed.input[index].script_sig, same.input[index].script_sig);
        assert_eq!(
            signed.input[index].script_sig,
            expected_script(&raw_signature(index), &public_key)
        );
    }
    assert_eq!(signed.output.len(), 2);
}

#[test]
fn applying_signatures_tests_address_then_count_then_lengths() {
    let public_key = vec![0x02u8; 33];
    let tx = unsigned(2);
    let short = vec![raw_signature(0)];
    let bad = vec![raw_signature(0), vec![0u8; 10]];
    assert!(matches!(
        apply_signatures(&public_key, &address(AddressType::P2sh), tx.clone(), &short),
        Err(Error::UnsupportedAddressType)
    ));
    assert!(matches!(
        apply_signatures(&public_key, &address(AddressType::P2pkh), tx.clone(), &short),
        Err(Error::InputOutputCountMismatch)
    ));
    assert!(matches!(
        apply_signatures(&public_key, &address(AddressType::P2pkh), tx.clone(), &bad),
        Err(Error::SigningBackendError)
    ));
    let none = apply_signatures(&public_key, &address(AddressType::P2pkh), unsigned(0), &[]);
    assert!(none.unwrap().input.is_empty());
}

#[test]
fn der_parses_back_to_the_same_pair() {
    for (r_first, s_first) in [(0x01u8, 0x02u8), (0x7f, 0x80), (0x80, 0x7f), (0xc3, 0xd4), (0x00, 0x00)] {
        let mut raw = vec![0x5au8; 64];
        raw[0] = r_first;
        raw[32] = s_first;
        let der = sign_to_der(raw.clone());
        let padding = (r_first >= 0x80) as usize + (s_first >= 0x80) as usize;
        assert_eq!(der.len(), 6 + 64 + padding);
        assert_eq!(der[1] as usize, der.len() - 2);
        let parsed = bitcoin::secp256k1::ecdsa::Signature::from_der_lax(&der).unwrap();
        let expected = bitcoin::secp256k1::ecdsa::Signature::from_compact(&raw).unwrap();
        assert_eq!(parsed, expected);
        assert_eq!(parsed.serialize_compact().to_vec(), raw);
    }
}

#[test]
fn ordinary_witnesses_can_be_held() {
    assert!(witnesses_fit_limit(&unsigned(0)));
    assert!(witnesses_fit_limit(&unsigned(3)));
    let mut tx = unsigned(2);
    tx.input[0].witness = vec![Vec::new(), vec![7u8; 252], vec![7u8; 253], vec![7u8; 70_000]];
    tx.input[1].witness = vec![vec![1, 2, 3]];
    assert!(witnesses_fit_limit(&tx));
    let sender = address(AddressType::P2pkh);
    let digests = signature_digests(&sender, &tx).unwrap();
    let bare = signature_digests(&sender, &unsigned(2)).unwrap();
    assert_eq!(digests, bare);
    let signed =
        sign_transaction_p2pkh(&[2u8; 33], &sender, tx, key_id(), Vec::new(), mock_signer).unwrap();
    assert!(signed.input.iter().all(|input| input.witness.is_empty()));
}
