//! What the `bitcoin` crate computes for a build: the wire form of a
//! transaction, the digest that a signature commits to, and the script
//! instruction that pushes data.

use vstd::prelude::*;
use bitcoin::absolute::LockTime;
use bitcoin::hashes::Hash as _;
use bitcoin::script::{Builder, PushBytesBuf};
use bitcoin::sighash::SighashCache;
use bitcoin::transaction::Version;
use bitcoin::{Amount, OutPoint, Script, Sequence, Txid, Witness};
use bitcoin::{Transaction as RawTransaction, TxIn as RawTxIn, TxOut as RawTxOut};
use crate::tx::{Transaction, TransactionView};

verus! {

/// The bytes of a transaction in consensus encoding.
pub uninterp spec fn consensus_encoding(tx: TransactionView) -> Seq<u8>;

/// The legacy signature digest of one input of a transaction, for a given
/// reference script and signature hash type.
pub uninterp spec fn legacy_sighash(
    tx: TransactionView,
    input_index: int,
    script_pubkey: Seq<u8>,
    sighash_type: u32,
) -> Seq<u8>;

/// The script instruction that pushes `data` onto the stack: the shortest
/// push opcode that can hold its length, the length, and the data.
pub open spec fn push_data(data: Seq<u8>) -> Seq<u8> {
    let n = data.len();
    if n < 0x4c {
        seq![n as u8] + data
    } else if n < 0x100 {
        seq![0x4cu8, n as u8] + data
    } else if n < 0x1_0000 {
        seq![0x4du8, (n % 0x100) as u8, (n / 0x100) as u8] + data
    } else {
        seq![
            0x4eu8,
            (n % 0x100) as u8,
            ((n / 0x100) % 0x100) as u8,
            ((n / 0x1_0000) % 0x100) as u8,
            (n / 0x100_0000) as u8,
        ] + data
    }
}

/// The number of bytes of the compact size that stands in front of an item
/// of `n` bytes.
pub open spec fn compact_size_len(n: int) -> int {
    if n <= 0xFC {
        1
    } else if n <= 0xFFFF {
        3
    } else if n <= 0xFFFF_FFFF {
        5
    } else {
        9
    }
}

/// The number of bytes that the `bitcoin` crate holds for a witness: each
/// item with its compact size in front of it, and four bytes of index for
/// each item.
pub open spec fn witness_size(witness: Seq<Seq<u8>>) -> int
    decreases witness.len(),
{
    if witness.len() == 0 {
        0
    } else {
        witness_size(witness.drop_last()) + compact_size_len(witness.last().len() as int)
            + witness.last().len() + 4
    }
}

/// The greatest number of bytes that the `bitcoin` crate can hold for a
/// witness: it indexes them with 32 bits.
pub open spec fn max_witness_size() -> int {
    0xFFFF_FFFF
}

/// Whether the `bitcoin` crate can hold a witness.
pub open spec fn witness_fits(witness: Seq<Seq<u8>>) -> bool {
    witness_size(witness) <= max_witness_size()
}

/// Whether the `bitcoin` crate can hold the witness of every input of a
/// transaction.
pub open spec fn witnesses_fit(tx: TransactionView) -> bool {
    forall|i: int| 0 <= i < tx.input.len() ==> witness_fits(#[trigger] tx.input[i].witness)
}

/// A witness holds at least what its first items hold.
pub proof fn lemma_witness_size_grows(witness: Seq<Seq<u8>>, count: int)
    requires
        0 <= count <= witness.len(),
    ensures
        0 <= witness_size(witness.subrange(0, count)) <= witness_size(witness),
    decreases witness.len(),
{
    if count == witness.len() {
        assert(witness.subrange(0, count) =~= witness);
        if count > 0 {
            lemma_witness_size_grows(witness.drop_last(), count - 1);
        }
    } else {
        assert(witness.drop_last().subrange(0, count) =~= witness.subrange(0, count));
        lemma_witness_size_grows(witness.drop_last(), count);
    }
}

/// Tells whether the `bitcoin` crate can hold a witness.
fn witness_fits_limit(witness: &Vec<Vec<u8>>) -> (fits: bool)
    ensures
        fits == witness_fits(witness@.map_values(|item: Vec<u8>| item@)),
{
    let ghost all = witness@.map_values(|item: Vec<u8>| item@);
    let mut size: u128 = 0;
    let mut i: usize = 0;
    while i < witness.len()
        invariant
            i <= witness.len(),
            all == witness@.map_values(|item: Vec<u8>| item@),
            size == witness_size(all.subrange(0, i as int)),
            size <= max_witness_size(),
        decreases witness.len() - i,
    {
        let len: usize = witness[i].len();
        let prefix: u128 = if len <= 0xFC {
            1
        } else if len <= 0xFFFF {
            3
        } else if len <= 0xFFFF_FFFF {
            5
        } else {
            9
        };
        assert(all.subrange(0, i + 1).drop_last() =~= all.subrange(0, i as int));
        size = size + prefix + len as u128 + 4;
        i = i + 1;
        if size > 0xFFFF_FFFF {
            proof {
                lemma_witness_size_grows(all, i as int);
            }
            return false;
        }
    }
    assert(all.subrange(0, i as int) =~= all);
    true
}

/// Tells whether the `bitcoin` crate can hold the witness of every input of
/// a transaction.
pub fn witnesses_fit_limit(tx: &Transaction) -> (fits: bool)
    ensures
        fits == witnesses_fit(tx@),
{
    let mut i: usize = 0;
    while i < tx.input.len()
        invariant
            i <= tx.input.len(),
            forall|k: int| 0 <= k < i ==> witness_fits(#[trigger] tx@.input[k].witness),
        decreases tx.input.len() - i,
    {
        if !witness_fits_limit(&tx.input[i].witness) {
            assert(!witness_fits(tx@.input[i as int].witness));
            return false;
        }
        i = i + 1;
    }
    true
}

/// `bitcoin::consensus::serialize` on a transaction: the result is the
/// consensus encoding of the transaction handed in, field for field. The
/// crate holds a witness only within `max_witness_size`.
#[verifier::external_body]
pub(crate) fn serialize(tx: &Transaction) -> (bytes: Vec<u8>)
    requires
        witnesses_fit(tx@),
    ensures
        bytes@ == consensus_encoding(tx@),
{
    let input = tx.input.iter().map(|i| RawTxIn {
        previous_output: OutPoint::new(Txid::from_byte_array(i.previous_output.txid), i.previous_output.vout),
        script_sig: i.script_sig.clone().into(),
        sequence: Sequence(i.sequence),
        witness: Witness::from_slice(&i.witness),
    }).collect();
    let output = tx.output.iter().map(|o| RawTxOut {
        value: Amount::from_sat(o.value),
        script_pubkey: o.script_pubkey.clone().into(),
    }).collect();
    let lock_time = LockTime::from_consensus(tx.lock_time);
    let raw = RawTransaction { version: Version(tx.version), lock_time, input, output };
    bitcoin::consensus::serialize(&raw)
}

/// `SighashCache::legacy_signature_hash` on a transaction: for an input that
/// the transaction has, the result is the legacy signature digest of that
/// input. The call fails only for an index past the last input, and the
/// crate holds a witness only within `max_witness_size`.
#[verifier::external_body]
pub(crate) fn signature_hash(
    tx: &Transaction,
    input_index: usize,
    script_pubkey: &Vec<u8>,
    sighash_type: u32,
) -> (digest: [u8; 32])
    requires
        input_index < tx@.input.len(),
        witnesses_fit(tx@),
    ensures
        digest@ == legacy_sighash(tx@, input_index as int, script_pubkey@, sighash_type),
{
    let input = tx.input.iter().map(|i| RawTxIn {
        previous_output: OutPoint::new(Txid::from_byte_array(i.previous_output.txid), i.previous_output.vout),
        script_sig: i.script_sig.clone().into(),
        sequence: Sequence(i.sequence),
        witness: Witness::from_slice(&i.witness),
    }).collect();
    let output = tx.output.iter().map(|o| RawTxOut {
        value: Amount::from_sat(o.value),
        script_pubkey: o.script_pubkey.clone().into(),
    }).collect();
    let lock_time = LockTime::from_consensus(tx.lock_time);
    let raw = RawTransaction { version: Version(tx.version), lock_time, input, output };
    let cache = SighashCache::new(raw);
    cache.legacy_signature_hash(input_index, Script::from_bytes(script_pubkey), sighash_type).unwrap().to_byte_array()
}

/// `Builder::push_slice` on an empty script: the result is the one
/// instruction that pushes `data`. The crate takes no data of 2^32 bytes or
/// more.
#[verifier::external_body]
pub(crate) fn push_slice(data: &[u8]) -> (script: Vec<u8>)
    requires
        data@.len() <= 0xFFFF_FFFF,
    ensures
        script@ == push_data(data@),
{
    let bytes = PushBytesBuf::try_from(data.to_vec()).unwrap();
    Builder::new().push_slice(bytes).into_bytes()
}

} // verus!
