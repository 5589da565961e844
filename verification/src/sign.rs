//! The signing engine: the digest of each input, the unlocking script that
//! carries its signature, and the signed transaction.

use vstd::prelude::*;
use crate::consensus::{
    legacy_sighash, push_data, push_slice, signature_hash, witness_size, witnesses_fit,
};
use crate::der::{der_signature, sign_to_der};
use crate::tx::{
    Address, AddressType, AddressView, EcdsaKeyId, Error, Transaction, TransactionView, TxIn,
    TxInView, TxOut,
};

verus! {

/// The signature hash type that commits to all inputs and all outputs.
pub const SIGHASH_ALL: u32 = 1;

/// The byte that follows the signature in the unlocking script.
pub const SIGHASH_ALL_BYTE: u8 = 0x01;

/// The greatest number of bytes that one script instruction can push.
pub open spec fn max_push_len() -> int {
    0xFFFF_FFFF
}

/// Whether an address is pay-to-public-key-hash.
pub open spec fn is_p2pkh(address: AddressView) -> bool {
    address.kind == Some(AddressType::P2pkh)
}

/// Whether the bytes have the length of a raw signature.
pub open spec fn is_raw_signature(signature: Seq<u8>) -> bool {
    signature.len() == 64
}

/// The unlocking script of an input: it pushes the DER signature with the
/// signature hash byte behind it, then the public key.
pub open spec fn unlocking_script(signature: Seq<u8>, public_key: Seq<u8>) -> Seq<u8> {
    push_data(der_signature(signature).push(SIGHASH_ALL_BYTE)) + push_data(public_key)
}

/// An input with its signature in place: the same output spent, the same
/// sequence number, the unlocking script filled in, and no witness.
pub open spec fn signed_input(input: TxInView, signature: Seq<u8>, public_key: Seq<u8>) -> TxInView {
    TxInView {
        previous_output: input.previous_output,
        script_sig: unlocking_script(signature, public_key),
        sequence: input.sequence,
        witness: Seq::empty(),
    }
}

/// A transaction with the first `count` signatures in place, one per input
/// in index order; the inputs behind them are left out.
pub open spec fn signed_inputs(
    tx: TransactionView,
    signatures: Seq<Seq<u8>>,
    public_key: Seq<u8>,
    count: nat,
) -> Seq<TxInView> {
    Seq::new(count, |i: int| signed_input(tx.input[i], signatures[i], public_key))
}

/// A transaction with every input signed: signature `i` goes to input `i`.
pub open spec fn signed(
    tx: TransactionView,
    signatures: Seq<Seq<u8>>,
    public_key: Seq<u8>,
) -> TransactionView {
    TransactionView {
        version: tx.version,
        lock_time: tx.lock_time,
        input: signed_inputs(tx, signatures, public_key, tx.input.len()),
        output: tx.output,
    }
}

/// The digest that the signature of input `index` commits to: the legacy
/// signature hash over the whole transaction, with the spender's locking
/// script as the reference script.
pub open spec fn input_digest(tx: TransactionView, sender: AddressView, index: int) -> Seq<u8> {
    legacy_sighash(tx, index, sender.script_pubkey, SIGHASH_ALL)
}

/// The digests of all inputs, in index order.
pub open spec fn input_digests(tx: TransactionView, sender: AddressView) -> Seq<Seq<u8>> {
    Seq::new(tx.input.len(), |i: int| input_digest(tx, sender, i))
}

/// The views of a list of byte strings.
pub open spec fn byte_views(items: Seq<Vec<u8>>) -> Seq<Seq<u8>> {
    items.map_values(|item: Vec<u8>| item@)
}

/// The views of a list of digests.
pub open spec fn digest_views(items: Seq<[u8; 32]>) -> Seq<Seq<u8>> {
    items.map_values(|item: [u8; 32]| item@)
}

/// Accepts the spender's address where it is pay-to-public-key-hash.
pub fn validate_p2pkh_address(address: &Address) -> (result: Result<(), Error>)
    ensures
        result is Ok <==> is_p2pkh(address@),
        result matches Err(e) ==> e is UnsupportedAddressType,
{
    match address.kind {
        Some(AddressType::P2pkh) => Ok(()),
        _ => Err(Error::UnsupportedAddressType),
    }
}

/// A signer that answers every request with the same 64 bytes, each of them
/// 255. It serves to measure a signed transaction before the real signer is
/// asked.
pub fn mock_signer(_derivation_path: &Vec<Vec<u8>>, _key_id: &EcdsaKeyId, _message_hash: &[u8; 32]) -> (signature: Vec<u8>)
    ensures
        signature@ == mock_signature(),
{
    let mut signature: Vec<u8> = Vec::new();
    let mut i: usize = 0;
    while i < 64
        invariant
            i <= 64,
            signature@ == Seq::new(i as nat, |k: int| 255u8),
        decreases 64 - i,
    {
        signature.push(255);
        i = i + 1;
    }
    signature
}

/// What the mock signer answers.
pub open spec fn mock_signature() -> Seq<u8> {
    Seq::new(64, |k: int| 255u8)
}

/// Checks that there is one digest for each input.
pub fn check_tx_hashes_len(transaction: &Transaction, sig_hashes: &[[u8; 32]]) -> (result: Result<
    (),
    Error,
>)
    ensures
        result is Ok <==> transaction@.input.len() == sig_hashes@.len(),
        result matches Err(e) ==> e is InputOutputCountMismatch,
{
    if transaction.input.len() != sig_hashes.len() {
        Err(Error::InputOutputCountMismatch)
    } else {
        Ok(())
    }
}

/// Accepts what the signer handed back where it has the length of a raw
/// signature.
pub fn check_raw_signature(signature: &Vec<u8>) -> (result: Result<(), Error>)
    ensures
        result is Ok <==> is_raw_signature(signature@),
        result matches Err(e) ==> e is SigningBackendError,
{
    if signature.len() == 64 {
        Ok(())
    } else {
        Err(Error::SigningBackendError)
    }
}

/// Builds the signed form of one input from its raw signature.
fn sign_input(input: &TxIn, public_key: &[u8], signature: Vec<u8>) -> (result: TxIn)
    requires
        is_raw_signature(signature@),
        public_key@.len() <= max_push_len(),
    ensures
        result@ == signed_input(input@, signature@, public_key@),
{
    let mut sig_with_hashtype: Vec<u8> = sign_to_der(signature);
    sig_with_hashtype.push(SIGHASH_ALL_BYTE);
    let mut script_sig: Vec<u8> = push_slice(sig_with_hashtype.as_slice());
    let mut key_push: Vec<u8> = push_slice(public_key);
    script_sig.append(&mut key_push);
    let result = TxIn {
        previous_output: input.previous_output,
        script_sig,
        sequence: input.sequence,
        witness: Vec::new(),
    };
    assert(result.witness@.map_values(|item: Vec<u8>| item@) =~= Seq::empty());
    result
}

/// Whether every one of the byte strings has the length of a raw signature.
pub open spec fn all_raw_signatures(signatures: Seq<Seq<u8>>) -> bool {
    forall|i: int| 0 <= i < signatures.len() ==> is_raw_signature(#[trigger] signatures[i])
}

/// The digests that the signer is to sign, one per input in index order.
/// An address that is not pay-to-public-key-hash is refused before any
/// digest is computed.
pub fn signature_digests(sender: &Address, tx: &Transaction) -> (result: Result<
    Vec<[u8; 32]>,
    Error,
>)
    requires
        witnesses_fit(tx@),
    ensures
        result is Ok <==> is_p2pkh(sender@),
        result matches Ok(digests) ==> digest_views(digests@) == input_digests(tx@, sender@),
        result matches Err(e) ==> e is UnsupportedAddressType,
{
    match validate_p2pkh_address(sender) {
        Ok(()) => {},
        Err(e) => {
            return Err(e);
        },
    }
    let mut digests: Vec<[u8; 32]> = Vec::new();
    let mut i: usize = 0;
    while i < tx.input.len()
        invariant
            i <= tx.input.len(),
            tx@.input.len() == tx.input.len(),
            witnesses_fit(tx@),
            digests@.len() == i,
            forall|k: int| 0 <= k < i ==> (#[trigger] digests@[k])@ == input_digest(tx@, sender@, k),
        decreases tx.input.len() - i,
    {
        let digest: [u8; 32] = signature_hash(tx, i, &sender.script_pubkey, SIGHASH_ALL);
        digests.push(digest);
        i = i + 1;
    }
    Ok(digests)
}

/// Puts the signatures into the transaction, signature `i` into input `i`.
/// Nothing is signed unless the address is pay-to-public-key-hash, there is
/// one signature for each input, and each of them has 64 bytes; the three
/// are tested in this order.
pub fn apply_signatures(
    public_key: &[u8],
    sender: &Address,
    tx: Transaction,
    signatures: &[Vec<u8>],
) -> (result: Result<Transaction, Error>)
    requires
        public_key@.len() <= max_push_len(),
    ensures
        match result {
            Ok(signed_tx) => {
                &&& is_p2pkh(sender@)
                &&& signatures@.len() == tx@.input.len()
                &&& all_raw_signatures(byte_views(signatures@))
                &&& signed_tx@ == signed(tx@, byte_views(signatures@), public_key@)
            },
            Err(Error::UnsupportedAddressType) => !is_p2pkh(sender@),
            Err(Error::InputOutputCountMismatch) => {
                &&& is_p2pkh(sender@)
                &&& signatures@.len() != tx@.input.len()
            },
            Err(Error::SigningBackendError) => {
                &&& is_p2pkh(sender@)
                &&& signatures@.len() == tx@.input.len()
                &&& !all_raw_signatures(byte_views(signatures@))
            },
            Err(_) => false,
        },
{
    match validate_p2pkh_address(sender) {
        Ok(()) => {},
        Err(e) => {
            return Err(e);
        },
    }
    if signatures.len() != tx.input.len() {
        return Err(Error::InputOutputCountMismatch);
    }
    let ghost all = byte_views(signatures@);
    let mut input: Vec<TxIn> = Vec::new();
    let mut i: usize = 0;
    while i < tx.input.len()
        invariant
            i <= tx.input.len(),
            tx@.input.len() == tx.input.len() == signatures@.len(),
            all == byte_views(signatures@),
            is_p2pkh(sender@),
            public_key@.len() <= max_push_len(),
            input@.len() == i,
            forall|k: int| 0 <= k < i ==> is_raw_signature(#[trigger] all[k]),
            forall|k: int|
                0 <= k < i ==> (#[trigger] input@[k])@ == signed_input(
                    tx@.input[k],
                    all[k],
                    public_key@,
                ),
        decreases tx.input.len() - i,
    {
        if signatures[i].len() != 64 {
            assert(!is_raw_signature(all[i as int]));
            return Err(Error::SigningBackendError);
        }
        let txin: TxIn = sign_input(&tx.input[i], public_key, signatures[i].clone());
        input.push(txin);
        i = i + 1;
    }
    let signed_tx = Transaction {
        version: tx.version,
        lock_time: tx.lock_time,
        input,
        output: tx.output,
    };
    assert(signed_tx@.input =~= signed_inputs(tx@, all, public_key@, tx@.input.len()));
    Ok(signed_tx)
}

/// Whether `answer` is something that the signer may hand back when it is
/// asked to sign `digest`.
pub open spec fn signer_answers<F: Fn(&Vec<Vec<u8>>, &EcdsaKeyId, &[u8; 32]) -> Vec<u8>>(
    signer: F,
    derivation_path: Vec<Vec<u8>>,
    key_id: EcdsaKeyId,
    digest: Seq<u8>,
    answer: Vec<u8>,
) -> bool {
    exists|message: [u8; 32]|
        message@ == digest && call_ensures(signer, (&derivation_path, &key_id, &message), answer)
}

/// Whether `result` is what signing comes to when the signer hands back
/// `answers`, one per request. The signer is asked for one input after the
/// other, in index order, and for no further input once an answer is not a
/// raw signature: that answer is the last, and signing fails on it.
pub open spec fn signing_run<F: Fn(&Vec<Vec<u8>>, &EcdsaKeyId, &[u8; 32]) -> Vec<u8>>(
    signer: F,
    derivation_path: Vec<Vec<u8>>,
    key_id: EcdsaKeyId,
    public_key: Seq<u8>,
    sender: AddressView,
    tx: TransactionView,
    answers: Seq<Vec<u8>>,
    result: Result<Transaction, Error>,
) -> bool {
    &&& answers.len() <= tx.input.len()
    &&& forall|i: int|
        0 <= i < answers.len() ==> signer_answers(
            signer,
            derivation_path,
            key_id,
            input_digest(tx, sender, i),
            #[trigger] answers[i],
        )
    &&& forall|i: int| 0 <= i < answers.len() - 1 ==> is_raw_signature((#[trigger] answers[i])@)
    &&& match result {
        Ok(signed_tx) => {
            &&& answers.len() == tx.input.len()
            &&& all_raw_signatures(byte_views(answers))
            &&& signed_tx@ == signed(tx, byte_views(answers), public_key)
        },
        Err(Error::SigningBackendError) => {
            &&& answers.len() > 0
            &&& !is_raw_signature(answers.last()@)
        },
        Err(_) => false,
    }
}

/// Copies a list of outputs.
fn copy_outputs(outputs: &Vec<TxOut>) -> (copy: Vec<TxOut>)
    ensures
        copy@.map_values(|item: TxOut| item@) == outputs@.map_values(|item: TxOut| item@),
{
    let mut copy: Vec<TxOut> = Vec::new();
    let mut i: usize = 0;
    while i < outputs.len()
        invariant
            i <= outputs.len(),
            copy@.len() == i,
            forall|k: int| 0 <= k < i ==> (#[trigger] copy@[k])@ == outputs@[k]@,
        decreases outputs.len() - i,
    {
        let txout = TxOut {
            value: outputs[i].value,
            script_pubkey: outputs[i].script_pubkey.clone(),
        };
        copy.push(txout);
        i = i + 1;
    }
    copy
}

/// Signs every input of `tx` and hands back the signed transaction; `tx`
/// itself stays as it is.
pub(crate) fn sign_inputs<F: Fn(&Vec<Vec<u8>>, &EcdsaKeyId, &[u8; 32]) -> Vec<u8>>(
    public_key: &[u8],
    sender: &Address,
    tx: &Transaction,
    key_id: EcdsaKeyId,
    derivation_path: Vec<Vec<u8>>,
    signer: F,
) -> (result: Result<Transaction, Error>)
    requires
        public_key@.len() <= max_push_len(),
        witnesses_fit(tx@),
        forall|message: [u8; 32]|
            call_requires(signer, (&derivation_path, &key_id, &message)),
    ensures
        !is_p2pkh(sender@) ==> (result matches Err(e) && e is UnsupportedAddressType),
        is_p2pkh(sender@) ==> exists|answers: Seq<Vec<u8>>|
            signing_run(
                signer,
                derivation_path,
                key_id,
                public_key@,
                sender@,
                tx@,
                answers,
                result,
            ),
{
    match validate_p2pkh_address(sender) {
        Ok(()) => {},
        Err(e) => {
            return Err(e);
        },
    }
    let ghost mut answers: Seq<Vec<u8>> = Seq::empty();
    let mut input: Vec<TxIn> = Vec::new();
    let mut i: usize = 0;
    while i < tx.input.len()
        invariant
            i <= tx.input.len(),
            tx@.input.len() == tx.input.len(),
            is_p2pkh(sender@),
            public_key@.len() <= max_push_len(),
            witnesses_fit(tx@),
            forall|message: [u8; 32]|
                call_requires(signer, (&derivation_path, &key_id, &message)),
            input@.len() == i,
            answers.len() == i,
            forall|k: int|
                0 <= k < i ==> signer_answers(
                    signer,
                    derivation_path,
                    key_id,
                    input_digest(tx@, sender@, k),
                    #[trigger] answers[k],
                ),
            forall|k: int| 0 <= k < i ==> is_raw_signature((#[trigger] answers[k])@),
            forall|k: int|
                0 <= k < i ==> (#[trigger] input@[k])@ == signed_input(
                    tx@.input[k],
                    answers[k]@,
                    public_key@,
                ),
        decreases tx.input.len() - i,
    {
        let digest: [u8; 32] = signature_hash(tx, i, &sender.script_pubkey, SIGHASH_ALL);
        let signature: Vec<u8> = signer(&derivation_path, &key_id, &digest);
        proof {
            answers = answers.push(signature);
        }
        if signature.len() != 64 {
            let result = Err(Error::SigningBackendError);
            assert(signing_run(
                signer,
                derivation_path,
                key_id,
                public_key@,
                sender@,
                tx@,
                answers,
                result,
            ));
            return result;
        }
        let txin: TxIn = sign_input(&tx.input[i], public_key, signature);
        input.push(txin);
        i = i + 1;
    }
    let signed_tx = Transaction {
        version: tx.version,
        lock_time: tx.lock_time,
        input,
        output: copy_outputs(&tx.output),
    };
    let result = Ok(signed_tx);
    proof {
        assert(signed_tx@.input =~= signed_inputs(
            tx@,
            byte_views(answers),
            public_key@,
            tx@.input.len(),
        ));
        assert(signing_run(
            signer,
            derivation_path,
            key_id,
            public_key@,
            sender@,
            tx@,
            answers,
            result,
        ));
    }
    result
}

/// Signs every input of a transaction that spends from a
/// pay-to-public-key-hash address. The signer is asked once per input, in
/// index order, with the digest of that input; each answer is put into its
/// input as the unlocking script, and the witness of the input is cleared.
/// Either all inputs are signed or the whole operation fails. An address of
/// another kind is refused before the signer is asked anything. The
/// witnesses that the transaction comes with must be such as the `bitcoin`
/// crate can hold, which `witnesses_fit_limit` tells.
pub fn sign_transaction_p2pkh<F: Fn(&Vec<Vec<u8>>, &EcdsaKeyId, &[u8; 32]) -> Vec<u8>>(
    public_key: &[u8],
    sender: &Address,
    tx: Transaction,
    key_id: EcdsaKeyId,
    derivation_path: Vec<Vec<u8>>,
    signer: F,
) -> (result: Result<Transaction, Error>)
    requires
        public_key@.len() <= max_push_len(),
        witnesses_fit(tx@),
        forall|message: [u8; 32]|
            call_requires(signer, (&derivation_path, &key_id, &message)),
    ensures
        !is_p2pkh(sender@) ==> (result matches Err(e) && e is UnsupportedAddressType),
        is_p2pkh(sender@) ==> exists|answers: Seq<Vec<u8>>|
            signing_run(
                signer,
                derivation_path,
                key_id,
                public_key@,
                sender@,
                tx@,
                answers,
                result,
            ),
{
    sign_inputs(public_key, sender, &tx, key_id, derivation_path, signer)
}

/// A signed transaction has no witness, so the `bitcoin` crate can hold it
/// whatever the witnesses of the unsigned one were.
pub proof fn lemma_signed_fits(tx: TransactionView, signatures: Seq<Seq<u8>>, public_key: Seq<u8>)
    ensures
        witnesses_fit(signed(tx, signatures, public_key)),
{
    assert(witness_size(Seq::<Seq<u8>>::empty()) == 0);
}

} // verus!
