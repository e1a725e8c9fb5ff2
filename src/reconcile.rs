//! Reconciliation of a confirmed transfer into its settlement record, and the
//! laws that tie classification and fee together.
use vstd::prelude::*;
use crate::address::{Address, Chain};
use crate::classify::{
    change_address_of, change_amount_of, classify, first_change, first_payment, first_where,
    lemma_first_where_found, lemma_first_where_is, missing_payment, output_amounts, pays,
    returns_change, unresolved, TxOutput,
};
use crate::error::SettlementError;
use crate::fee::{amount_total, compute_fee, fee_of, total};
use crate::record::SettlementRecord;

verus! {

/// The amounts of a sequence of outputs.
pub open spec fn amounts_of(outs: Seq<TxOutput>) -> Seq<u64> {
    outs.map_values(|o: TxOutput| o.amount)
}

/// Reconciles a confirmed transaction: classifies its outputs against the
/// counterparty, with the sender's funding address standing for absent change,
/// derives the fee from the input and output amounts, and gathers the record.
/// Fails as `classify` does when no output pays the counterparty.
pub fn settle(
    txid: String,
    sender: &Address,
    counterparty: &Address,
    outputs: &Vec<TxOutput>,
    inputs: &Vec<u64>,
    chain: Chain,
    block_height: u64,
    block_hash: String,
) -> (r: Result<SettlementRecord, SettlementError>)
    ensures
        match first_payment(outputs@, chain, counterparty.text@) {
            Some(p) => r matches Ok(rec)
                && rec.txid@ == txid@
                && rec.sender_address@ == sender.text@
                && rec.input_amount == total(inputs@)
                && rec.counterparty_address@ == counterparty.text@
                && rec.payment_amount == outputs@[p].amount
                && rec.change_address@ == change_address_of(outputs@, chain, counterparty.text@, sender.text@)
                && rec.change_amount == change_amount_of(outputs@, chain, counterparty.text@)
                && rec.fee == fee_of(inputs@, amounts_of(outputs@))
                && rec.block_height == block_height
                && rec.block_hash@ == block_hash@,
            None => r matches Err(e) && missing_payment(e, outputs@, chain, counterparty.text@),
        },
{
    let classified = match classify(outputs, counterparty, sender, chain) {
        Ok(c) => c,
        Err(e) => return Err(e),
    };
    let amounts = output_amounts(outputs);
    let fee = compute_fee(inputs, &amounts);
    let input_amount = amount_total(inputs);
    Ok(SettlementRecord::build(txid, sender, counterparty, input_amount, &classified, fee, block_height, block_hash))
}

/// A transaction of two outputs, one paying the counterparty and one returning
/// change, is classified into exactly that payment and that change; and when the
/// inputs cover the outputs, payment, change and fee add up to the inputs.
pub proof fn lemma_two_output_balance(outs: Seq<TxOutput>, inputs: Seq<u64>, chain: Chain, counterparty: Seq<char>, p: int)
    requires
        outs.len() == 2,
        p == 0 || p == 1,
        pays(outs[p], chain, counterparty),
        returns_change(outs[1 - p], chain, counterparty),
        total(inputs) >= outs[0].amount + outs[1].amount,
    ensures
        first_payment(outs, chain, counterparty) == Some(p),
        first_change(outs, chain, counterparty) == Some(1 - p),
        outs[p].amount + change_amount_of(outs, chain, counterparty) + fee_of(inputs, amounts_of(outs)) == total(inputs),
{
    reveal_with_fuel(first_where, 3);
    reveal_with_fuel(total, 3);
    let a = amounts_of(outs);
    assert(a.drop_last().drop_last() =~= Seq::<u64>::empty());
    assert(total(a) == outs[0].amount + outs[1].amount);
}

/// A transaction with a payment and no output returning change, whose outputs
/// take exactly what the inputs bring, is classified with the change absent, a
/// change amount of zero, and a fee of zero; classification succeeds.
pub proof fn lemma_zero_change(outs: Seq<TxOutput>, inputs: Seq<u64>, chain: Chain, counterparty: Seq<char>, p: int)
    requires
        0 <= p < outs.len(),
        pays(outs[p], chain, counterparty),
        forall|j: int| 0 <= j < outs.len() ==> !returns_change(#[trigger] outs[j], chain, counterparty),
        total(amounts_of(outs)) == total(inputs),
    ensures
        first_payment(outs, chain, counterparty) is Some,
        first_change(outs, chain, counterparty) is None,
        change_amount_of(outs, chain, counterparty) == 0,
        fee_of(inputs, amounts_of(outs)) == 0,
{
    lemma_first_where_found(outs, crate::classify::payment_test(chain, counterparty));
    lemma_first_where_found(outs, crate::classify::change_test(chain, counterparty));
    match first_where(outs, crate::classify::change_test(chain, counterparty)) {
        Some(k) => {
            assert(!returns_change(outs[k], chain, counterparty));
        },
        None => {},
    }
}

proof fn lemma_first_where_remove(s: Seq<TxOutput>, p: spec_fn(TxOutput) -> bool, k: int)
    requires
        0 <= k < s.len(),
        !p(s[k]),
    ensures
        match first_where(s, p) {
            Some(i) => i != k && first_where(s.remove(k), p) == Some(if i < k { i } else { i - 1 }),
            None => first_where(s.remove(k), p) is None,
        },
{
    let q = s.remove(k);
    lemma_first_where_found(s, p);
    lemma_first_where_found(q, p);
    match first_where(s, p) {
        Some(i) => {
            let i2 = if i < k { i } else { i - 1 };
            assert(q[i2] == s[i]);
            assert forall|j: int| 0 <= j < i2 implies !p(#[trigger] q[j]) by {
                if j < k {
                    assert(q[j] == s[j]);
                } else {
                    assert(q[j] == s[j + 1]);
                }
            }
            lemma_first_where_is(q, p, i2);
        },
        None => {
            match first_where(q, p) {
                Some(i) => {
                    if i < k {
                        assert(q[i] == s[i]);
                    } else {
                        assert(q[i] == s[i + 1]);
                    }
                },
                None => {},
            }
        },
    }
}

/// An output whose address does not resolve leaves the rest of the
/// classification alone: without it the same outputs are taken as payment and
/// change, and the change is reported alike.
pub proof fn lemma_unresolved_output_isolated(outs: Seq<TxOutput>, chain: Chain, counterparty: Seq<char>, fallback: Seq<char>, k: int)
    requires
        0 <= k < outs.len(),
        unresolved(outs[k], chain),
    ensures
        first_payment(outs, chain, counterparty) is Some <==> first_payment(outs.remove(k), chain, counterparty) is Some,
        first_payment(outs, chain, counterparty) matches Some(i) ==> outs[i] == outs.remove(k)[first_payment(outs.remove(k), chain, counterparty)->0],
        first_change(outs, chain, counterparty) is Some <==> first_change(outs.remove(k), chain, counterparty) is Some,
        first_change(outs, chain, counterparty) matches Some(i) ==> outs[i] == outs.remove(k)[first_change(outs.remove(k), chain, counterparty)->0],
        change_amount_of(outs, chain, counterparty) == change_amount_of(outs.remove(k), chain, counterparty),
        change_address_of(outs, chain, counterparty, fallback) == change_address_of(outs.remove(k), chain, counterparty, fallback),
{
    let q = outs.remove(k);
    lemma_first_where_remove(outs, crate::classify::payment_test(chain, counterparty), k);
    lemma_first_where_remove(outs, crate::classify::change_test(chain, counterparty), k);
    lemma_first_where_found(outs, crate::classify::payment_test(chain, counterparty));
    lemma_first_where_found(outs, crate::classify::change_test(chain, counterparty));
    match first_where(outs, crate::classify::payment_test(chain, counterparty)) {
        Some(i) => {
            if i < k { assert(q[i] == outs[i]); } else { assert(q[i - 1] == outs[i]); }
        },
        None => {},
    }
    match first_where(outs, crate::classify::change_test(chain, counterparty)) {
        Some(i) => {
            if i < k { assert(q[i] == outs[i]); } else { assert(q[i - 1] == outs[i]); }
        },
        None => {},
    }
}

} // verus!
