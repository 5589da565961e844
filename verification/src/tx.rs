//! The data that a build works on: spendable outputs, recipients, addresses
//! and the transaction itself, each with its mathematical view.

use vstd::prelude::*;
use crate::principal::Principal;

verus! {

/// The kinds of address that the network knows.
#[derive(Clone, Copy, Debug, PartialEq, Eq, Structural)]
pub enum AddressType {
    /// Pay to public key hash.
    P2pkh,
    /// Pay to script hash.
    P2sh,
    /// Pay to witness public key hash.
    P2wpkh,
    /// Pay to witness script hash.
    P2wsh,
    /// Pay to taproot.
    P2tr,
    /// Pay to anchor.
    P2a,
}

/// An address, held as what a build reads of it: its kind, where it has a
/// standard one, and the locking script that pays to it.
#[derive(Clone, Debug)]
pub struct Address {
    pub kind: Option<AddressType>,
    pub script_pubkey: Vec<u8>,
}

pub struct AddressView {
    pub kind: Option<AddressType>,
    pub script_pubkey: Seq<u8>,
}

impl View for Address {
    type V = AddressView;

    open spec fn view(&self) -> AddressView {
        AddressView { kind: self.kind, script_pubkey: self.script_pubkey@ }
    }
}

/// A reference to one output of an earlier transaction.
#[derive(Clone, Copy, Debug)]
pub struct OutPoint {
    pub txid: [u8; 32],
    pub vout: u32,
}

pub struct OutPointView {
    pub txid: Seq<u8>,
    pub vout: u32,
}

impl View for OutPoint {
    type V = OutPointView;

    open spec fn view(&self) -> OutPointView {
        OutPointView { txid: self.txid@, vout: self.vout }
    }
}

/// An unspent output: where it is, what it is worth in satoshi, and the
/// height of the block that holds it.
#[derive(Clone, Copy, Debug)]
pub struct Utxo {
    pub outpoint: OutPoint,
    pub value: u64,
    pub height: u32,
}

pub struct UtxoView {
    pub outpoint: OutPointView,
    pub value: u64,
    pub height: u32,
}

impl View for Utxo {
    type V = UtxoView;

    open spec fn view(&self) -> UtxoView {
        UtxoView { outpoint: self.outpoint@, value: self.value, height: self.height }
    }
}

/// One payment: the address paid and the amount in satoshi.
#[derive(Clone, Debug)]
pub struct RecipientAmount {
    pub recipient: Address,
    pub amount: u64,
}

pub struct RecipientAmountView {
    pub recipient: AddressView,
    pub amount: u64,
}

impl View for RecipientAmount {
    type V = RecipientAmountView;

    open spec fn view(&self) -> RecipientAmountView {
        RecipientAmountView { recipient: self.recipient@, amount: self.amount }
    }
}

/// A transaction input.
#[derive(Clone, Debug)]
pub struct TxIn {
    pub previous_output: OutPoint,
    pub script_sig: Vec<u8>,
    pub sequence: u32,
    pub witness: Vec<Vec<u8>>,
}

pub struct TxInView {
    pub previous_output: OutPointView,
    pub script_sig: Seq<u8>,
    pub sequence: u32,
    pub witness: Seq<Seq<u8>>,
}

impl View for TxIn {
    type V = TxInView;

    open spec fn view(&self) -> TxInView {
        TxInView {
            previous_output: self.previous_output@,
            script_sig: self.script_sig@,
            sequence: self.sequence,
            witness: self.witness@.map_values(|item: Vec<u8>| item@),
        }
    }
}

/// A transaction output.
#[derive(Clone, Debug)]
pub struct TxOut {
    pub value: u64,
    pub script_pubkey: Vec<u8>,
}

pub struct TxOutView {
    pub value: u64,
    pub script_pubkey: Seq<u8>,
}

impl View for TxOut {
    type V = TxOutView;

    open spec fn view(&self) -> TxOutView {
        TxOutView { value: self.value, script_pubkey: self.script_pubkey@ }
    }
}

/// A transaction in the legacy layout.
#[derive(Clone, Debug)]
pub struct Transaction {
    pub version: i32,
    pub lock_time: u32,
    pub input: Vec<TxIn>,
    pub output: Vec<TxOut>,
}

pub struct TransactionView {
    pub version: i32,
    pub lock_time: u32,
    pub input: Seq<TxInView>,
    pub output: Seq<TxOutView>,
}

impl View for Transaction {
    type V = TransactionView;

    open spec fn view(&self) -> TransactionView {
        TransactionView {
            version: self.version,
            lock_time: self.lock_time,
            input: self.input@.map_values(|item: TxIn| item@),
            output: self.output@.map_values(|item: TxOut| item@),
        }
    }
}

/// The views of a list of spendable outputs.
pub open spec fn utxo_views(utxos: Seq<Utxo>) -> Seq<UtxoView> {
    utxos.map_values(|item: Utxo| item@)
}

/// The views of a list of payments.
pub open spec fn payment_views(txs: Seq<RecipientAmount>) -> Seq<RecipientAmountView> {
    txs.map_values(|item: RecipientAmount| item@)
}

/// The curves that a signing key can lie on.
#[derive(Clone, Copy, Debug, PartialEq, Eq, Structural)]
pub enum EcdsaCurve {
    Secp256k1,
}

/// The name of a key of the signing service.
#[derive(Clone, Debug)]
pub struct EcdsaKeyId {
    pub curve: EcdsaCurve,
    pub name: String,
}

impl Default for EcdsaKeyId {
    /// The key on `Secp256k1` with the empty name.
    fn default() -> (key_id: EcdsaKeyId)
        ensures
            key_id.curve == EcdsaCurve::Secp256k1,
            key_id.name@ == Seq::<char>::empty(),
    {
        EcdsaKeyId { curve: EcdsaCurve::Secp256k1, name: String::new() }
    }
}

/// What can go wrong in a build.
#[derive(Clone, Debug)]
pub enum Error {
    /// The spendable outputs do not cover the payments and the fee.
    InsufficientFunds,
    /// The spender's address is not pay-to-public-key-hash.
    UnsupportedAddressType,
    /// The signer handed back something that is no raw signature.
    SigningBackendError,
    /// The number of inputs and the number of digests or signatures differ.
    InputOutputCountMismatch,
    /// The fee did not settle within the allowed number of rounds.
    FeeConvergenceFailed,
    /// The principal is the management canister or the anonymous one.
    InvalidPrincipal(Principal),
    /// The text is no address, or an address of another network.
    InvalidBitcoinAddress(String),
}

} // verus!
