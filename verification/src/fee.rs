//! The fee loop: the fee depends on the size of the signed transaction,
//! and the transaction depends on the fee. The loop builds, signs with the
//! mock signer, measures, and builds again until the fee it built with is
//! the fee that the measured size implies.

use vstd::prelude::*;
use crate::assemble::{
    assemble_transaction, assembled, lemma_assembled_fits, required_total, total_value,
};
use crate::consensus::{consensus_encoding, serialize, witnesses_fit};
use crate::sign::{
    all_raw_signatures, byte_views, is_p2pkh, is_raw_signature, max_push_len, mock_signature,
    lemma_signed_fits, mock_signer, sign_inputs, signed, signer_answers, signing_run,
};
use crate::tx::{
    payment_views, utxo_views, Address, AddressView, EcdsaKeyId, Error, RecipientAmount,
    RecipientAmountView, Transaction, TransactionView, Utxo, UtxoView,
};

verus! {

/// The number of rounds after which the loop gives up.
pub const MAX_FEE_ROUNDS: u32 = 10;

/// The fee rate counts satoshi per this many bytes.
pub const FEE_RATE_BYTES: u64 = 1000;

/// As many mock signatures as asked for.
pub open spec fn mock_signatures(count: nat) -> Seq<Seq<u8>> {
    Seq::new(count, |i: int| mock_signature())
}

/// The transaction as it is measured: every input signed by the mock
/// signer.
pub open spec fn measured(tx: TransactionView, public_key: Seq<u8>) -> TransactionView {
    signed(tx, mock_signatures(tx.input.len()), public_key)
}

/// The number of bytes of the measured transaction on the wire.
pub open spec fn measured_len(tx: TransactionView, public_key: Seq<u8>) -> int {
    consensus_encoding(measured(tx, public_key)).len() as int
}

/// The fee that a size implies at a fee rate, rounded down.
pub open spec fn implied_fee(len: int, fee_per_byte: u64) -> int {
    len * fee_per_byte / (FEE_RATE_BYTES as int)
}

/// What the loop comes to when it starts a round with `fee` and has
/// `rounds` rounds left. A round builds the transaction with `fee`, which
/// fails where the funds do not suffice; signs it, which fails where the
/// spender's address is not pay-to-public-key-hash; and compares `fee` with
/// the fee that the measured size implies. Where the two agree, the
/// unsigned transaction of this round is the result. Where they do not, the
/// next round starts with the implied fee.
pub open spec fn settled(
    public_key: Seq<u8>,
    sender: AddressView,
    utxos: Seq<UtxoView>,
    txs: Seq<RecipientAmountView>,
    fee_per_byte: u64,
    fee: int,
    rounds: nat,
) -> Result<TransactionView, Error>
    decreases rounds,
{
    let tx = assembled(sender, utxos, txs, fee);
    let next = implied_fee(measured_len(tx, public_key), fee_per_byte);
    if rounds == 0 {
        Err(Error::FeeConvergenceFailed)
    } else if total_value(utxos) < required_total(txs, fee) {
        Err(Error::InsufficientFunds)
    } else if !is_p2pkh(sender) {
        Err(Error::UnsupportedAddressType)
    } else if next == fee {
        Ok(tx)
    } else {
        settled(public_key, sender, utxos, txs, fee_per_byte, next, (rounds - 1) as nat)
    }
}

/// The fee that a number of bytes implies at a fee rate in satoshi per 1000
/// bytes, rounded down.
pub fn fee_for_len(len: usize, fee_per_byte: u64) -> (fee: u128)
    ensures
        fee == implied_fee(len as int, fee_per_byte),
{
    assert((len as u128) * (fee_per_byte as u128) <= 0xFFFF_FFFF_FFFF_FFFF * 0xFFFF_FFFF_FFFF_FFFF)
        by (nonlinear_arith)
        requires
            len <= 0xFFFF_FFFF_FFFF_FFFF,
            fee_per_byte <= 0xFFFF_FFFF_FFFF_FFFF,
    ;
    (len as u128) * (fee_per_byte as u128) / (FEE_RATE_BYTES as u128)
}

/// Signs `tx` with the mock signer.
fn sign_for_measure(public_key: &[u8], sender: &Address, tx: &Transaction) -> (result: Result<
    Transaction,
    Error,
>)
    requires
        public_key@.len() <= max_push_len(),
        witnesses_fit(tx@),
    ensures
        result is Ok <==> is_p2pkh(sender@),
        result matches Ok(signed_tx) ==> signed_tx@ == measured(tx@, public_key@),
        result matches Err(e) ==> e == Error::UnsupportedAddressType,
{
    let key_id = EcdsaKeyId::default();
    let derivation_path: Vec<Vec<u8>> = Vec::new();
    let result = sign_inputs(public_key, sender, tx, key_id, derivation_path, mock_signer);
    proof {
        if is_p2pkh(sender@) {
            let answers = choose|answers: Seq<Vec<u8>>|
                signing_run(
                    mock_signer,
                    derivation_path,
                    key_id,
                    public_key@,
                    sender@,
                    tx@,
                    answers,
                    result,
                );
            assert(byte_views(answers) =~= mock_signatures(tx@.input.len()));
        }
    }
    result
}

/// Builds the transaction that pays `txs` from `utxos` at a fee rate given
/// in satoshi per 1000 bytes. The fee starts at zero and is set, round after
/// round, to the fee that the size of the signed transaction implies, until
/// a round builds with the very fee that its own size implies. The result is
/// the unsigned transaction of that round, for the caller to sign. After
/// `MAX_FEE_ROUNDS` rounds without agreement the build fails.
pub fn build_transaction(
    public_key: &[u8],
    sender: &Address,
    utxos: &[Utxo],
    txs: &[RecipientAmount],
    fee_per_byte: u64,
) -> (result: Result<Transaction, Error>)
    requires
        public_key@.len() <= max_push_len(),
    ensures
        match result {
            Ok(tx) => settled(
                public_key@,
                sender@,
                utxo_views(utxos@),
                payment_views(txs@),
                fee_per_byte,
                0,
                MAX_FEE_ROUNDS as nat,
            ) == Ok::<TransactionView, Error>(tx@),
            Err(e) => settled(
                public_key@,
                sender@,
                utxo_views(utxos@),
                payment_views(txs@),
                fee_per_byte,
                0,
                MAX_FEE_ROUNDS as nat,
            ) == Err::<TransactionView, Error>(e),
        },
        result matches Ok(tx) ==> {
            let fee = settled_fee(
                public_key@,
                sender@,
                utxo_views(utxos@),
                payment_views(txs@),
                fee_per_byte,
                0,
                MAX_FEE_ROUNDS as nat,
            );
            &&& tx@ == assembled(sender@, utxo_views(utxos@), payment_views(txs@), fee)
            &&& fee == implied_fee(measured_len(tx@, public_key@), fee_per_byte)
        },
{
    let mut total_fee: u128 = 0;
    let mut round: u32 = 0;
    while round < MAX_FEE_ROUNDS
        invariant
            round <= MAX_FEE_ROUNDS,
            public_key@.len() <= max_push_len(),
            settled(
                public_key@,
                sender@,
                utxo_views(utxos@),
                payment_views(txs@),
                fee_per_byte,
                0,
                MAX_FEE_ROUNDS as nat,
            ) == settled(
                public_key@,
                sender@,
                utxo_views(utxos@),
                payment_views(txs@),
                fee_per_byte,
                total_fee as int,
                (MAX_FEE_ROUNDS - round) as nat,
            ),
        decreases MAX_FEE_ROUNDS - round,
    {
        let tx: Transaction = match assemble_transaction(sender, utxos, txs, total_fee) {
            Ok(tx) => tx,
            Err(_) => {
                return Err(Error::InsufficientFunds);
            },
        };
        proof {
            lemma_assembled_fits(sender@, utxo_views(utxos@), payment_views(txs@), total_fee as int);
            lemma_signed_fits(tx@, mock_signatures(tx@.input.len()), public_key@);
        }
        let signed_tx: Transaction = match sign_for_measure(public_key, sender, &tx) {
            Ok(signed_tx) => signed_tx,
            Err(_) => {
                return Err(Error::UnsupportedAddressType);
            },
        };
        let signed_len: usize = serialize(&signed_tx).len();
        let implied: u128 = fee_for_len(signed_len, fee_per_byte);
        if implied == total_fee {
            proof {
                lemma_fixed_point(
                    public_key@,
                    sender@,
                    utxo_views(utxos@),
                    payment_views(txs@),
                    fee_per_byte,
                    0,
                    MAX_FEE_ROUNDS as nat,
                );
            }
            return Ok(tx);
        }
        total_fee = implied;
        round = round + 1;
    }
    Err(Error::FeeConvergenceFailed)
}

/// The fee with which the last round of the loop starts.
pub open spec fn settled_fee(
    public_key: Seq<u8>,
    sender: AddressView,
    utxos: Seq<UtxoView>,
    txs: Seq<RecipientAmountView>,
    fee_per_byte: u64,
    fee: int,
    rounds: nat,
) -> int
    decreases rounds,
{
    let tx = assembled(sender, utxos, txs, fee);
    let next = implied_fee(measured_len(tx, public_key), fee_per_byte);
    if rounds <= 1 || total_value(utxos) < required_total(txs, fee) || !is_p2pkh(sender) || next
        == fee {
        fee
    } else {
        settled_fee(public_key, sender, utxos, txs, fee_per_byte, next, (rounds - 1) as nat)
    }
}

/// The fee that a size implies is never negative.
pub proof fn lemma_implied_fee_bounds(len: int, fee_per_byte: u64)
    requires
        len >= 0,
    ensures
        implied_fee(len, fee_per_byte) >= 0,
{
    assert(len * fee_per_byte >= 0) by (nonlinear_arith)
        requires
            len >= 0,
            fee_per_byte >= 0,
    ;
}

/// The fixed point. Where the loop ends well, it ends with a transaction
/// that was built with exactly the fee that its own measured size implies
/// at the fee rate, from funds that cover the payments and that fee.
pub proof fn lemma_fixed_point(
    public_key: Seq<u8>,
    sender: AddressView,
    utxos: Seq<UtxoView>,
    txs: Seq<RecipientAmountView>,
    fee_per_byte: u64,
    fee: int,
    rounds: nat,
)
    ensures
        settled(public_key, sender, utxos, txs, fee_per_byte, fee, rounds) matches Ok(tx) ==> {
            let last = settled_fee(public_key, sender, utxos, txs, fee_per_byte, fee, rounds);
            &&& tx == assembled(sender, utxos, txs, last)
            &&& last == implied_fee(measured_len(tx, public_key), fee_per_byte)
            &&& total_value(utxos) >= required_total(txs, last)
            &&& is_p2pkh(sender)
        },
    decreases rounds,
{
    let tx = assembled(sender, utxos, txs, fee);
    let next = implied_fee(measured_len(tx, public_key), fee_per_byte);
    if rounds > 1 && total_value(utxos) >= required_total(txs, fee) && is_p2pkh(sender) && next
        != fee {
        lemma_fixed_point(
            public_key,
            sender,
            utxos,
            txs,
            fee_per_byte,
            next,
            (rounds - 1) as nat,
        );
    } else if rounds == 1 {
        assert(settled(public_key, sender, utxos, txs, fee_per_byte, next, 0) is Err);
    }
}

/// The loop fails for one of three reasons and no other.
pub proof fn lemma_failures(
    public_key: Seq<u8>,
    sender: AddressView,
    utxos: Seq<UtxoView>,
    txs: Seq<RecipientAmountView>,
    fee_per_byte: u64,
    fee: int,
    rounds: nat,
)
    ensures
        settled(public_key, sender, utxos, txs, fee_per_byte, fee, rounds) matches Err(e) ==> {
            ||| e == Error::InsufficientFunds
            ||| e == Error::UnsupportedAddressType && !is_p2pkh(sender)
            ||| e == Error::FeeConvergenceFailed
        },
    decreases rounds,
{
    let tx = assembled(sender, utxos, txs, fee);
    let next = implied_fee(measured_len(tx, public_key), fee_per_byte);
    if rounds > 0 {
        lemma_failures(public_key, sender, utxos, txs, fee_per_byte, next, (rounds - 1) as nat);
    }
}

/// The limit on the rounds changes no result but the failure to settle: a
/// loop that ends well, or for want of funds, or on the sender's address,
/// ends the same way with one round more.
pub proof fn lemma_more_rounds(
    public_key: Seq<u8>,
    sender: AddressView,
    utxos: Seq<UtxoView>,
    txs: Seq<RecipientAmountView>,
    fee_per_byte: u64,
    fee: int,
    rounds: nat,
)
    requires
        settled(public_key, sender, utxos, txs, fee_per_byte, fee, rounds) != Err::<
            TransactionView,
            Error,
        >(Error::FeeConvergenceFailed),
    ensures
        settled(public_key, sender, utxos, txs, fee_per_byte, fee, rounds + 1) == settled(
            public_key,
            sender,
            utxos,
            txs,
            fee_per_byte,
            fee,
            rounds,
        ),
    decreases rounds,
{
    let tx = assembled(sender, utxos, txs, fee);
    let next = implied_fee(measured_len(tx, public_key), fee_per_byte);
    if rounds > 0 && total_value(utxos) >= required_total(txs, fee) && is_p2pkh(sender) && next
        != fee {
        lemma_more_rounds(public_key, sender, utxos, txs, fee_per_byte, next, (rounds - 1) as nat);
    }
}

/// Two rounds are enough where the second round agrees with the first.
/// Take the transaction built without a fee, and the one built with the fee
/// that the size of the first implies. Where the funds cover that fee and
/// the size of the second implies the same fee, the loop ends in its first
/// round, if that fee is zero, and in its second round otherwise.
pub proof fn lemma_two_rounds(
    public_key: Seq<u8>,
    sender: AddressView,
    utxos: Seq<UtxoView>,
    txs: Seq<RecipientAmountView>,
    fee_per_byte: u64,
    rounds: nat,
)
    requires
        rounds >= 2,
        is_p2pkh(sender),
    ensures
        ({
            let first = assembled(sender, utxos, txs, 0);
            let fee = implied_fee(measured_len(first, public_key), fee_per_byte);
            let second = assembled(sender, utxos, txs, fee);
            total_value(utxos) >= required_total(txs, fee) && implied_fee(
                measured_len(second, public_key),
                fee_per_byte,
            ) == fee ==> settled(
                public_key,
                sender,
                utxos,
                txs,
                fee_per_byte,
                0,
                rounds,
            ) == (if fee == 0 {
                Ok::<TransactionView, Error>(first)
            } else {
                Ok::<TransactionView, Error>(second)
            })
        }),
{
    let first = assembled(sender, utxos, txs, 0);
    let fee = implied_fee(measured_len(first, public_key), fee_per_byte);
    lemma_implied_fee_bounds(measured_len(first, public_key), fee_per_byte);
    if total_value(utxos) >= required_total(txs, fee) && fee != 0 {
        assert(settled(public_key, sender, utxos, txs, fee_per_byte, 0, rounds) == settled(
            public_key,
            sender,
            utxos,
            txs,
            fee_per_byte,
            fee,
            (rounds - 1) as nat,
        ));
    }
}

} // verus!
