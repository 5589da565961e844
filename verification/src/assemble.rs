//! The output selector and the transaction assembler.

use vstd::prelude::*;
use crate::consensus::{witness_size, witnesses_fit};
use crate::tx::{
    payment_views, utxo_views, Address, AddressView, Error, RecipientAmount, RecipientAmountView,
    Transaction, TransactionView, TxIn, TxInView, TxOut, TxOutView, Utxo, UtxoView,
};

verus! {

/// A remainder below this many satoshi is not worth an output of its own.
pub const DUST_THRESHOLD: u64 = 1_000;

/// The sequence number of an input that is final.
pub const SEQUENCE_FINAL: u32 = 0xFFFF_FFFF;

/// The transaction version that the assembler writes.
pub const VERSION_ONE: i32 = 1;

/// The lock time that the assembler writes: none.
pub const LOCK_TIME_ZERO: u32 = 0;

/// The largest value that one output can hold.
pub open spec fn max_value() -> int {
    0xFFFF_FFFF_FFFF_FFFF
}

/// The combined value of a list of spendable outputs.
pub open spec fn total_value(utxos: Seq<UtxoView>) -> int
    decreases utxos.len(),
{
    if utxos.len() == 0 {
        0
    } else {
        total_value(utxos.drop_last()) + utxos.last().value
    }
}

/// The combined amount of a list of payments.
pub open spec fn total_amount(txs: Seq<RecipientAmountView>) -> int
    decreases txs.len(),
{
    if txs.len() == 0 {
        0
    } else {
        total_amount(txs.drop_last()) + txs.last().amount
    }
}

/// How many candidates the selector takes: it walks from the end of the list
/// towards its start, takes each candidate it meets, and stops as soon as
/// what it has taken covers `required`. It never stops before the first
/// candidate, and takes all of them where they do not cover `required`.
pub open spec fn selection_count(utxos: Seq<UtxoView>, required: int) -> nat
    decreases utxos.len(),
{
    if utxos.len() == 0 {
        0
    } else if utxos.last().value >= required {
        1
    } else {
        1 + selection_count(utxos.drop_last(), required - utxos.last().value)
    }
}

/// The candidates that the selector takes, in the order in which it takes
/// them: the last of the list first.
pub open spec fn selected(utxos: Seq<UtxoView>, required: int) -> Seq<UtxoView> {
    Seq::new(selection_count(utxos, required), |i: int| utxos[utxos.len() - 1 - i])
}

/// The input that spends a given output, before it is signed.
pub open spec fn unsigned_input(utxo: UtxoView) -> TxInView {
    TxInView {
        previous_output: utxo.outpoint,
        script_sig: Seq::empty(),
        sequence: SEQUENCE_FINAL,
        witness: Seq::empty(),
    }
}

/// The output that makes a given payment.
pub open spec fn payment_output(payment: RecipientAmountView) -> TxOutView {
    TxOutView { value: payment.amount, script_pubkey: payment.recipient.script_pubkey }
}

/// What the payments and the fee together ask of the inputs.
pub open spec fn required_total(txs: Seq<RecipientAmountView>, fee: int) -> int {
    total_amount(txs) + fee
}

/// What the selected inputs hold beyond the payments and the fee.
pub open spec fn remainder(utxos: Seq<UtxoView>, txs: Seq<RecipientAmountView>, fee: int) -> int {
    total_value(selected(utxos, required_total(txs, fee))) - required_total(txs, fee)
}

/// Whether the remainder goes back to the sender in an output of its own.
pub open spec fn has_change(
    utxos: Seq<UtxoView>,
    txs: Seq<RecipientAmountView>,
    fee: int,
) -> bool {
    remainder(utxos, txs, fee) >= DUST_THRESHOLD
}

/// The outputs of the assembled transaction: one per payment, in the order
/// given, then the change where there is any.
pub open spec fn assembled_outputs(
    sender: AddressView,
    utxos: Seq<UtxoView>,
    txs: Seq<RecipientAmountView>,
    fee: int,
) -> Seq<TxOutView> {
    let payments = txs.map_values(|payment: RecipientAmountView| payment_output(payment));
    if has_change(utxos, txs, fee) {
        payments.push(
            TxOutView {
                value: remainder(utxos, txs, fee) as u64,
                script_pubkey: sender.script_pubkey,
            },
        )
    } else {
        payments
    }
}

/// The transaction that the assembler builds where the funds suffice.
pub open spec fn assembled(
    sender: AddressView,
    utxos: Seq<UtxoView>,
    txs: Seq<RecipientAmountView>,
    fee: int,
) -> TransactionView {
    TransactionView {
        version: VERSION_ONE,
        lock_time: LOCK_TIME_ZERO,
        input: selected(utxos, required_total(txs, fee)).map_values(
            |utxo: UtxoView| unsigned_input(utxo),
        ),
        output: assembled_outputs(sender, utxos, txs, fee),
    }
}

/// The combined value of the outputs of a transaction.
pub open spec fn total_output(outputs: Seq<TxOutView>) -> int
    decreases outputs.len(),
{
    if outputs.len() == 0 {
        0
    } else {
        total_output(outputs.drop_last()) + outputs.last().value
    }
}

/// A list of outputs is worth at least nothing and at most the largest value
/// for each of them.
pub proof fn lemma_total_value_bounds(utxos: Seq<UtxoView>)
    ensures
        0 <= total_value(utxos) <= utxos.len() * max_value(),
    decreases utxos.len(),
{
    if utxos.len() > 0 {
        lemma_total_value_bounds(utxos.drop_last());
    }
}

/// A list of payments comes to at least nothing and at most the largest
/// value for each of them.
pub proof fn lemma_total_amount_bounds(txs: Seq<RecipientAmountView>)
    ensures
        0 <= total_amount(txs) <= txs.len() * max_value(),
    decreases txs.len(),
{
    if txs.len() > 0 {
        lemma_total_amount_bounds(txs.drop_last());
    }
}

/// Walks the candidates from the last to the first and takes them until
/// they cover `required`. Returns what it took with its combined value.
fn scan(utxos: &[Utxo], required: u128) -> (result: (Vec<Utxo>, u128))
    ensures
        utxo_views(result.0@) == selected(utxo_views(utxos@), required as int),
        result.1 == total_value(selected(utxo_views(utxos@), required as int)),
        result.1 >= required <==> total_value(utxo_views(utxos@)) >= required,
        result.1 >= required ==> result.1 - required <= max_value(),
{
    let ghost all = utxo_views(utxos@);
    let n: usize = utxos.len();
    let mut chosen: Vec<Utxo> = Vec::new();
    let mut sum: u128 = 0;
    let mut taken: usize = 0;
    assert(all.subrange(0, n as int) =~= all);
    while taken < n && !(taken > 0 && sum >= required)
        invariant
            n == utxos.len(),
            all == utxo_views(utxos@),
            taken <= n,
            chosen@.len() == taken,
            utxo_views(chosen@) == Seq::new(taken as nat, |i: int| all[n - 1 - i]),
            sum == total_value(utxo_views(chosen@)),
            sum <= taken * max_value(),
            total_value(all) == sum + total_value(all.subrange(0, n - taken)),
            taken > 0 ==> sum <= required + max_value(),
            (taken == 0 || sum < required) ==> selection_count(all, required as int) == taken
                + selection_count(all.subrange(0, n - taken), required - sum),
            (taken > 0 && sum >= required) ==> selection_count(all, required as int) == taken,
        decreases n - taken,
    {
        let utxo: Utxo = utxos[n - 1 - taken];
        let ghost rest = all.subrange(0, n - taken);
        let ghost before = utxo_views(chosen@);
        assert(rest.drop_last() =~= all.subrange(0, n - taken - 1));
        sum = sum + utxo.value as u128;
        chosen.push(utxo);
        taken = taken + 1;
        assert(utxo_views(chosen@) =~= before.push(utxo@));
        assert(utxo_views(chosen@).drop_last() =~= before);
    }
    proof {
        lemma_total_value_bounds(all.subrange(0, n - taken));
    }
    (chosen, sum)
}

/// Chooses which spendable outputs to consume for a required total: from
/// the end of the list backward, until the total is covered.
pub fn select_utxos(utxos: &[Utxo], required: u128) -> (result: Result<Vec<Utxo>, Error>)
    ensures
        result is Ok <==> total_value(utxo_views(utxos@)) >= required,
        result matches Ok(chosen) ==> utxo_views(chosen@) == selected(
            utxo_views(utxos@),
            required as int,
        ),
        result matches Err(e) ==> e is InsufficientFunds,
{
    let (chosen, sum) = scan(utxos, required);
    if sum < required {
        Err(Error::InsufficientFunds)
    } else {
        Ok(chosen)
    }
}

/// Adds up the amounts of the payments.
fn sum_amounts(txs: &[RecipientAmount]) -> (sum: u128)
    ensures
        sum == total_amount(payment_views(txs@)),
{
    let ghost all = payment_views(txs@);
    let mut sum: u128 = 0;
    let mut i: usize = 0;
    while i < txs.len()
        invariant
            i <= txs.len(),
            all == payment_views(txs@),
            sum == total_amount(all.subrange(0, i as int)),
            sum <= i * max_value(),
        decreases txs.len() - i,
    {
        assert(all.subrange(0, i + 1).drop_last() =~= all.subrange(0, i as int));
        sum = sum + txs[i].amount as u128;
        i = i + 1;
    }
    assert(all.subrange(0, i as int) =~= all);
    sum
}

/// One unsigned input for each selected output, in the order of selection.
fn unsigned_inputs(chosen: &Vec<Utxo>) -> (input: Vec<TxIn>)
    ensures
        input@.map_values(|item: TxIn| item@) == utxo_views(chosen@).map_values(
            |utxo: UtxoView| unsigned_input(utxo),
        ),
{
    let mut input: Vec<TxIn> = Vec::new();
    let mut i: usize = 0;
    while i < chosen.len()
        invariant
            i <= chosen.len(),
            input@.len() == i,
            forall|k: int| 0 <= k < i ==> (#[trigger] input@[k])@ == unsigned_input(chosen@[k]@),
        decreases chosen.len() - i,
    {
        let utxo: Utxo = chosen[i];
        let txin = TxIn {
            previous_output: utxo.outpoint,
            script_sig: Vec::new(),
            sequence: SEQUENCE_FINAL,
            witness: Vec::new(),
        };
        assert(txin.witness@.map_values(|item: Vec<u8>| item@) =~= Seq::empty());
        input.push(txin);
        i = i + 1;
    }
    input
}

/// One output for each payment, in the order given.
fn payment_outputs(txs: &[RecipientAmount]) -> (output: Vec<TxOut>)
    ensures
        output@.map_values(|item: TxOut| item@) == payment_views(txs@).map_values(
            |payment: RecipientAmountView| payment_output(payment),
        ),
{
    let mut output: Vec<TxOut> = Vec::new();
    let mut i: usize = 0;
    while i < txs.len()
        invariant
            i <= txs.len(),
            output@.len() == i,
            forall|k: int| 0 <= k < i ==> (#[trigger] output@[k])@ == payment_output(txs@[k]@),
        decreases txs.len() - i,
    {
        let txout = TxOut {
            value: txs[i].amount,
            script_pubkey: txs[i].recipient.script_pubkey.clone(),
        };
        output.push(txout);
        i = i + 1;
    }
    output
}

/// Builds the unsigned transaction that pays `txs` from `utxos` at a given
/// fee, with the change going back to `sender`. The fee may be any amount:
/// one that no set of outputs can hold is answered as insufficient funds.
pub fn assemble_transaction(
    sender: &Address,
    utxos: &[Utxo],
    txs: &[RecipientAmount],
    fee: u128,
) -> (result: Result<Transaction, Error>)
    ensures
        result is Ok <==> total_value(utxo_views(utxos@)) >= required_total(
            payment_views(txs@),
            fee as int,
        ),
        result matches Ok(tx) ==> tx@ == assembled(
            sender@,
            utxo_views(utxos@),
            payment_views(txs@),
            fee as int,
        ),
        result matches Err(e) ==> e is InsufficientFunds,
{
    let amount: u128 = sum_amounts(txs);
    let candidates: usize = utxos.len();
    let required: u128 = match amount.checked_add(fee) {
        Some(total) => total,
        None => {
            proof {
                // No list holds that much: each candidate holds a `u64` at most.
                lemma_total_value_bounds(utxo_views(utxos@));
                assert(utxo_views(utxos@).len() == candidates);
            }
            return Err(Error::InsufficientFunds);
        },
    };
    let (chosen, input_total) = scan(utxos, required);
    if input_total < required {
        return Err(Error::InsufficientFunds);
    }
    let input: Vec<TxIn> = unsigned_inputs(&chosen);
    let mut output: Vec<TxOut> = payment_outputs(txs);
    let remaining: u128 = input_total - required;
    if remaining >= DUST_THRESHOLD as u128 {
        let ghost payments = output@.map_values(|item: TxOut| item@);
        let change = TxOut { value: remaining as u64, script_pubkey: sender.script_pubkey.clone() };
        output.push(change);
        assert(output@.map_values(|item: TxOut| item@) =~= payments.push(change@));
    }
    Ok(Transaction { version: VERSION_ONE, lock_time: LOCK_TIME_ZERO, input, output })
}

/// Builds the unsigned transaction that pays `txs` from `utxos` at the fee
/// given, where the outputs cover payments and fee, and reports insufficient
/// funds where they do not.
pub fn calc_fee_and_build_transaction(
    sender: &Address,
    utxos: &[Utxo],
    txs: &[RecipientAmount],
    fee: u64,
) -> (result: Result<Transaction, Error>)
    ensures
        result is Ok <==> total_value(utxo_views(utxos@)) >= required_total(
            payment_views(txs@),
            fee as int,
        ),
        result matches Ok(tx) ==> tx@ == assembled(
            sender@,
            utxo_views(utxos@),
            payment_views(txs@),
            fee as int,
        ),
        result matches Err(e) ==> e is InsufficientFunds,
{
    assemble_transaction(sender, utxos, txs, fee as u128)
}

/// The value of a list with one more output in front is the value of that
/// output and of the list.
pub proof fn lemma_total_value_prepend(first: UtxoView, rest: Seq<UtxoView>)
    ensures
        total_value(seq![first] + rest) == first.value + total_value(rest),
    decreases rest.len(),
{
    let whole = seq![first] + rest;
    if rest.len() == 0 {
        assert(total_value(whole.drop_last()) == 0);
    } else {
        assert(whole.drop_last() =~= seq![first] + rest.drop_last());
        lemma_total_value_prepend(first, rest.drop_last());
    }
}

/// What the selector takes covers the required total exactly where the
/// whole list covers it. It never holds more than the list, and never more
/// than the required total and one output's largest value: the selector
/// stops at the first output with which the total is covered.
pub proof fn lemma_selection(utxos: Seq<UtxoView>, required: int)
    requires
        required >= 0,
    ensures
        total_value(selected(utxos, required)) >= required <==> total_value(utxos) >= required,
        total_value(selected(utxos, required)) <= total_value(utxos),
        total_value(selected(utxos, required)) <= required + max_value(),
        selection_count(utxos, required) <= utxos.len(),
        utxos.len() > 0 ==> selection_count(utxos, required) >= 1,
    decreases utxos.len(),
{
    if utxos.len() > 0 {
        let newest = utxos.last();
        let older = utxos.drop_last();
        lemma_total_value_bounds(older);
        if newest.value >= required {
            assert(selected(utxos, required) =~= seq![newest] + Seq::<UtxoView>::empty());
            lemma_total_value_prepend(newest, Seq::<UtxoView>::empty());
        } else {
            lemma_selection(older, required - newest.value);
            assert(selected(utxos, required) =~= seq![newest] + selected(
                older,
                required - newest.value,
            ));
            lemma_total_value_prepend(newest, selected(older, required - newest.value));
        }
    }
}

/// The selector takes no more than it must: what it took before its last
/// output did not cover the required total.
pub proof fn lemma_selection_is_minimal(utxos: Seq<UtxoView>, required: int)
    requires
        required >= 0,
        selection_count(utxos, required) >= 2,
    ensures
        total_value(selected(utxos, required).drop_last()) < required,
    decreases utxos.len(),
{
    let newest = utxos.last();
    let older = utxos.drop_last();
    let rest = selected(older, required - newest.value);
    lemma_selection(older, required - newest.value);
    assert(selected(utxos, required).drop_last() =~= seq![newest] + rest.drop_last());
    lemma_total_value_prepend(newest, rest.drop_last());
    if selection_count(older, required - newest.value) >= 2 {
        lemma_selection_is_minimal(older, required - newest.value);
    }
}

/// The outputs that make the payments are worth what the payments come to.
pub proof fn lemma_payment_outputs_total(txs: Seq<RecipientAmountView>)
    ensures
        total_output(txs.map_values(|payment: RecipientAmountView| payment_output(payment)))
            == total_amount(txs),
    decreases txs.len(),
{
    let outputs = txs.map_values(|payment: RecipientAmountView| payment_output(payment));
    if txs.len() > 0 {
        assert(outputs.drop_last() =~= txs.drop_last().map_values(
            |payment: RecipientAmountView| payment_output(payment),
        ));
        lemma_payment_outputs_total(txs.drop_last());
    }
}

/// Value is conserved. Where the funds suffice, what the selected inputs
/// hold is what the outputs hold, the fee, and the remainder where that is
/// too small for an output of its own: no satoshi is made and none is lost.
pub proof fn lemma_value_conserved(
    sender: AddressView,
    utxos: Seq<UtxoView>,
    txs: Seq<RecipientAmountView>,
    fee: int,
)
    requires
        fee >= 0,
        total_value(utxos) >= required_total(txs, fee),
    ensures
        total_value(selected(utxos, required_total(txs, fee))) == total_output(
            assembled(sender, utxos, txs, fee).output,
        ) + fee + (if remainder(utxos, txs, fee) < DUST_THRESHOLD {
            remainder(utxos, txs, fee)
        } else {
            0
        }),
        0 <= remainder(utxos, txs, fee) <= max_value(),
{
    lemma_total_amount_bounds(txs);
    lemma_selection(utxos, required_total(txs, fee));
    lemma_payment_outputs_total(txs);
    let payments = txs.map_values(|payment: RecipientAmountView| payment_output(payment));
    if has_change(utxos, txs, fee) {
        assert(assembled(sender, utxos, txs, fee).output.drop_last() =~= payments);
    }
}

/// The change output is there exactly where the remainder reaches the dust
/// threshold. Where it is there, it comes last, pays the remainder to the
/// sender, and the inputs pay the fee and no more. Where it is not, the
/// outputs are the payments alone, and the inputs pay the fee and the
/// remainder on top of it.
pub proof fn lemma_change_output(
    sender: AddressView,
    utxos: Seq<UtxoView>,
    txs: Seq<RecipientAmountView>,
    fee: int,
)
    requires
        fee >= 0,
        total_value(utxos) >= required_total(txs, fee),
    ensures
        assembled(sender, utxos, txs, fee).output.len() == txs.len() + (if remainder(
            utxos,
            txs,
            fee,
        ) >= 1000 {
            1int
        } else {
            0int
        }),
        remainder(utxos, txs, fee) >= 1000 ==> {
            &&& assembled(sender, utxos, txs, fee).output.last().value == remainder(utxos, txs, fee)
            &&& assembled(sender, utxos, txs, fee).output.last().script_pubkey
                == sender.script_pubkey
            &&& total_value(selected(utxos, required_total(txs, fee))) - total_output(
                assembled(sender, utxos, txs, fee).output,
            ) == fee
        },
        remainder(utxos, txs, fee) < 1000 ==> total_value(
            selected(utxos, required_total(txs, fee)),
        ) - total_output(assembled(sender, utxos, txs, fee).output) == fee + remainder(
            utxos,
            txs,
            fee,
        ),
        forall|i: int|
            0 <= i < txs.len() ==> #[trigger] assembled(sender, utxos, txs, fee).output[i]
                == payment_output(txs[i]),
{
    lemma_value_conserved(sender, utxos, txs, fee);
}

/// The assembled transaction has no witness, so the `bitcoin` crate can
/// hold it.
pub proof fn lemma_assembled_fits(
    sender: AddressView,
    utxos: Seq<UtxoView>,
    txs: Seq<RecipientAmountView>,
    fee: int,
)
    ensures
        witnesses_fit(assembled(sender, utxos, txs, fee)),
{
    assert(witness_size(Seq::<Seq<u8>>::empty()) == 0);
}

} // verus!
