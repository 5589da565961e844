//! Addresses from their text.

use vstd::prelude::*;
use bitcoin::AddressType::{P2a, P2pkh, P2sh, P2tr, P2wpkh, P2wsh};
use bitcoin::Network::{Bitcoin, Regtest, Signet, Testnet, Testnet4};
use crate::network::{to_bitcoin_network, wire_network, BitcoinNetwork, Network};
use crate::tx::{Address, AddressType, AddressView, Error};

verus! {

/// What the text of an address comes to on a network: the address, or the
/// message that says why the text is no address of that network.
pub uninterp spec fn parsed_address(address: Seq<char>, network: Network) -> Result<
    AddressView,
    Seq<char>,
>;

/// `str::parse` into a `bitcoin::Address`, then `Address::require_network`:
/// the result is the address that the text names on the network, held as
/// its kind and its locking script, or the message of the error with which
/// either call refused the text.
#[verifier::external_body]
pub(crate) fn parse_address(address: &str, network: Network) -> (result: Result<Address, String>)
    ensures
        match result {
            Ok(parsed) => parsed_address(address@, network) == Ok::<AddressView, Seq<char>>(
                parsed@,
            ),
            Err(message) => parsed_address(address@, network) == Err::<AddressView, Seq<char>>(
                message@,
            ),
        },
{
    let required = match network {
        Network::Bitcoin => Bitcoin, Network::Testnet => Testnet, Network::Testnet4 => Testnet4,
        Network::Signet => Signet, Network::Regtest => Regtest,
    };
    let unchecked = address.parse::<bitcoin::Address<_>>().map_err(|e| e.to_string())?;
    let parsed = unchecked.require_network(required).map_err(|e| e.to_string())?;
    let kind = parsed.address_type().and_then(|k| match k {
        P2pkh => Some(AddressType::P2pkh), P2sh => Some(AddressType::P2sh), P2wpkh => Some(AddressType::P2wpkh),
        P2wsh => Some(AddressType::P2wsh), P2tr => Some(AddressType::P2tr), P2a => Some(AddressType::P2a),
        _ => None,
    });
    Ok(Address { kind, script_pubkey: parsed.script_pubkey().into_bytes() })
}

/// Turns what parsing came to into the result that callers get: the
/// address as it is, and the message as an invalid-address error.
pub fn address_or_error(parsed: Result<Address, String>) -> (result: Result<Address, Error>)
    ensures
        match (parsed, result) {
            (Ok(before), Ok(after)) => before == after,
            (Err(message), Err(Error::InvalidBitcoinAddress(text))) => message == text,
            _ => false,
        },
{
    match parsed {
        Ok(address) => Ok(address),
        Err(message) => Err(Error::InvalidBitcoinAddress(message)),
    }
}

/// Reads an address from its text and holds it to a network.
pub fn str_to_bitcoin_address(address: &str, network: BitcoinNetwork) -> (result: Result<
    Address,
    Error,
>)
    ensures
        match result {
            Ok(parsed) => parsed_address(address@, wire_network(network)) == Ok::<
                AddressView,
                Seq<char>,
            >(parsed@),
            Err(Error::InvalidBitcoinAddress(message)) => parsed_address(
                address@,
                wire_network(network),
            ) == Err::<AddressView, Seq<char>>(message@),
            Err(_) => false,
        },
{
    address_or_error(parse_address(address, to_bitcoin_network(network)))
}

} // verus!
