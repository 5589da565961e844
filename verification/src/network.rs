//! The networks, as the signing service names them and as the wire
//! format names them.

use vstd::prelude::*;

verus! {

/// A network, as the signing service names it.
#[derive(Clone, Copy, Debug, PartialEq, Eq, Structural)]
pub enum BitcoinNetwork {
    Mainnet,
    Testnet,
    Regtest,
}

/// A network, as addresses and transactions name it.
#[derive(Clone, Copy, Debug, PartialEq, Eq, Structural)]
pub enum Network {
    Bitcoin,
    Testnet,
    Testnet4,
    Signet,
    Regtest,
}

/// Whether two texts are the same.
fn same_text(left: &str, right: &str) -> (same: bool)
    ensures
        same == (left@ == right@),
{
    left.to_owned() == right.to_owned()
}

/// The network that a text names: `mainnet`, `testnet`, and the regression
/// test network for every other text.
pub open spec fn network_named(network: Seq<char>) -> BitcoinNetwork {
    if network == "mainnet"@ {
        BitcoinNetwork::Mainnet
    } else if network == "testnet"@ {
        BitcoinNetwork::Testnet
    } else {
        BitcoinNetwork::Regtest
    }
}

/// The name of a network.
pub open spec fn network_name(network: BitcoinNetwork) -> Seq<char> {
    match network {
        BitcoinNetwork::Mainnet => "mainnet"@,
        BitcoinNetwork::Testnet => "testnet"@,
        BitcoinNetwork::Regtest => "regtest"@,
    }
}

/// Reads the name of a network.
pub fn to_ic_bitcoin_network(network: &str) -> (result: BitcoinNetwork)
    ensures
        result == network_named(network@),
{
    if same_text(network, "mainnet") {
        BitcoinNetwork::Mainnet
    } else if same_text(network, "testnet") {
        BitcoinNetwork::Testnet
    } else {
        BitcoinNetwork::Regtest
    }
}

/// The network of the wire format that stands for a network of the signing
/// service.
pub open spec fn wire_network(network: BitcoinNetwork) -> Network {
    match network {
        BitcoinNetwork::Mainnet => Network::Bitcoin,
        BitcoinNetwork::Testnet => Network::Testnet,
        BitcoinNetwork::Regtest => Network::Regtest,
    }
}

/// Maps a network of the signing service to the network of the wire
/// format.
pub fn to_bitcoin_network(bitcoin_network: BitcoinNetwork) -> (network: Network)
    ensures
        network == wire_network(bitcoin_network),
{
    match bitcoin_network {
        BitcoinNetwork::Mainnet => Network::Bitcoin,
        BitcoinNetwork::Testnet => Network::Testnet,
        BitcoinNetwork::Regtest => Network::Regtest,
    }
}

/// Writes the name of a network.
pub fn network_to_string(network: BitcoinNetwork) -> (name: String)
    ensures
        name@ == network_name(network),
{
    match network {
        BitcoinNetwork::Mainnet => "mainnet".to_owned(),
        BitcoinNetwork::Testnet => "testnet".to_owned(),
        BitcoinNetwork::Regtest => "regtest".to_owned(),
    }
}

/// A name that is written is read back as the network it names.
pub proof fn lemma_network_name_round_trip(network: BitcoinNetwork)
    ensures
        network_named(network_name(network)) == network,
{
    reveal_strlit("mainnet");
    reveal_strlit("testnet");
    reveal_strlit("regtest");
    assert("regtest"@[0] != "testnet"@[0]);
}

} // verus!
