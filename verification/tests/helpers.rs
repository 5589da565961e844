use wallet::network::{BitcoinNetwork, Network};
use wallet::principal::Principal;
use wallet::tx::{AddressType, Error};
use wallet::utils::{
    address_or_error, check_normal_principal, hex, mgmt_canister_id, network_to_string,
    principal_to_derivation_path, str_to_bitcoin_address, to_bitcoin_network,
    to_ic_bitcoin_network,
};

#[test]
fn hex_writes_two_lower_case_digits_per_byte() {
    assert_eq!(hex(&[]), "");
    assert_eq!(hex(&[0x00]), "00");
    assert_eq!(hex(&[0x00, 0xff, 0x1a, 0xb2, 0x09, 0x90]), "00ff1ab20990");
    assert_eq!(hex(&[0xde, 0xad, 0xbe, 0xef]), "deadbeef");
    let all: Vec<u8> = (0..=255).collect();
    let text = hex(&all);
    assert_eq!(text.len(), 512);
    assert_eq!(&text[..20], "00010203040506070809");
    assert_eq!(&text[20..32], "0a0b0c0d0e0f");
    assert_eq!(&text[508..], "feff");
}

#[test]
fn network_names_are_read() {
    assert_eq!(to_ic_bitcoin_network("mainnet"), BitcoinNetwork::Mainnet);
    assert_eq!(to_ic_bitcoin_network("testnet"), BitcoinNetwork::Testnet);
    assert_eq!(to_ic_bitcoin_network("regtest"), BitcoinNetwork::Regtest);
    assert_eq!(to_ic_bitcoin_network("Mainnet"), BitcoinNetwork::Regtest);
    assert_eq!(to_ic_bitcoin_network(""), BitcoinNetwork::Regtest);
    assert_eq!(to_ic_bitcoin_network("signet"), BitcoinNetwork::Regtest);
}

#[test]
fn network_names_are_written() {
    assert_eq!(network_to_string(BitcoinNetwork::Mainnet), "mainnet");
    assert_eq!(network_to_string(BitcoinNetwork::Testnet), "testnet");
    assert_eq!(network_to_string(BitcoinNetwork::Regtest), "regtest");
    for network in [BitcoinNetwork::Mainnet, BitcoinNetwork::Testnet, BitcoinNetwork::Regtest] {
        assert_eq!(to_ic_bitcoin_network(&network_to_string(network)), network);
    }
}

#[test]
fn networks_are_mapped() {
    assert_eq!(to_bitcoin_network(BitcoinNetwork::Mainnet), Network::Bitcoin);
    assert_eq!(to_bitcoin_network(BitcoinNetwork::Testnet), Network::Testnet);
    assert_eq!(to_bitcoin_network(BitcoinNetwork::Regtest), Network::Regtest);
}

#[test]
fn the_management_canister_has_no_bytes() {
    assert!(mgmt_canister_id().bytes.is_empty());
    assert_eq!(
        mgmt_canister_id().bytes,
        candid::Principal::from_text("aaaaa-aa").unwrap().as_slice().to_vec()
    );
}

#[test]
fn management_and_anonymous_principals_are_refused() {
    let management = Principal { bytes: Vec::new() };
    match check_normal_principal(management) {
        Err(Error::InvalidPrincipal(principal)) => assert!(principal.bytes.is_empty()),
        _ => panic!("the management canister is no normal principal"),
    }
    let anonymous = Principal { bytes: candid::Principal::anonymous().as_slice().to_vec() };
    match check_normal_principal(anonymous) {
        Err(Error::InvalidPrincipal(principal)) => assert_eq!(principal.bytes, vec![4u8]),
        _ => panic!("the anonymous principal is no normal principal"),
    }
}

#[test]
fn other_principals_are_accepted() {
    for bytes in [vec![0u8], vec![5u8], vec![4u8, 0], vec![4u8, 4], vec![1u8; 29]] {
        assert!(check_normal_principal(Principal { bytes }).is_ok());
    }
    let canister = candid::Principal::from_text("ryjl3-tyaaa-aaaaa-aaaba-cai").unwrap();
    assert!(check_normal_principal(Principal { bytes: canister.as_slice().to_vec() }).is_ok());
}

#[test]
fn the_derivation_path_is_the_principal_alone() {
    let path = principal_to_derivation_path(Principal { bytes: vec![1, 2, 3] });
    assert_eq!(path, vec![vec![1u8, 2, 3]]);
    let path = principal_to_derivation_path(Principal { bytes: Vec::new() });
    assert_eq!(path, vec![Vec::<u8>::new()]);
}

#[test]
fn a_mainnet_address_is_read() {
    let address =
        str_to_bitcoin_address("1A1zP1eP5QGefi2DMPTfTL5SLmv7DivfNa", BitcoinNetwork::Mainnet)
            .unwrap();
    assert_eq!(address.kind, Some(AddressType::P2pkh));
    assert_eq!(
        hex(&address.script_pubkey),
        "76a91462e907b15cbf27d5425399ebf6f0fb50ebb88f1888ac"
    );
}

#[test]
fn addresses_of_other_kinds_are_read() {
    let address =
        str_to_bitcoin_address("3J98t1WpEZ73CNmQviecrnyiWrnqRhWNLy", BitcoinNetwork::Mainnet)
            .unwrap();
    assert_eq!(address.kind, Some(AddressType::P2sh));
    assert_eq!(address.script_pubkey.len(), 23);
    let address = str_to_bitcoin_address(
        "bc1qw508d6qejxtdg4y5r3zarvary0c5xw7kv8f3t4",
        BitcoinNetwork::Mainnet,
    )
    .unwrap();
    assert_eq!(address.kind, Some(AddressType::P2wpkh));
    assert_eq!(hex(&address.script_pubkey), "0014751e76e8199196d454941c45d1b3a323f1433bd6");
}

#[test]
fn a_testnet_address_is_read_on_testnet_and_regtest() {
    for network in [BitcoinNetwork::Testnet, BitcoinNetwork::Regtest] {
        let address =
            str_to_bitcoin_address("mipcBbFg9gMiCh81Kj8tqqdgoZub1ZJRfn", network).unwrap();
        assert_eq!(address.kind, Some(AddressType::P2pkh));
        assert_eq!(address.script_pubkey.len(), 25);
    }
}

#[test]
fn an_address_of_another_network_is_refused() {
    let mainnet = "1A1zP1eP5QGefi2DMPTfTL5SLmv7DivfNa";
    for network in [BitcoinNetwork::Testnet, BitcoinNetwork::Regtest] {
        match str_to_bitcoin_address(mainnet, network) {
            Err(Error::InvalidBitcoinAddress(message)) => assert!(!message.is_empty()),
            _ => panic!("a mainnet address is no address of a test network"),
        }
    }
    let result =
        str_to_bitcoin_address("mipcBbFg9gMiCh81Kj8tqqdgoZub1ZJRfn", BitcoinNetwork::Mainnet);
    assert!(matches!(result, Err(Error::InvalidBitcoinAddress(_))));
}

#[test]
fn text_that_is_no_address_is_refused() {
    for text in ["", "not an address", "1A1zP1eP5QGefi2DMPTfTL5SLmv7DivfNb"] {
        match str_to_bitcoin_address(text, BitcoinNetwork::Mainnet) {
            Err(Error::InvalidBitcoinAddress(message)) => assert!(!message.is_empty()),
            _ => panic!("the text is no address"),
        }
    }
}

#[test]
fn a_parse_error_becomes_an_invalid_address() {
    match address_or_error(Err(String::from("bad checksum"))) {
        Err(Error::InvalidBitcoinAddress(message)) => assert_eq!(message, "bad checksum"),
        _ => panic!("the message is handed on in the error"),
    }
}
