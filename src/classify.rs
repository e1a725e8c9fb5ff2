//! Splitting a transaction's outputs into the payment to the counterparty and
//! the change back to the sender.
use vstd::prelude::*;
use crate::address::{address_resolution, refusal, refusal_error, require_network, Address, AddressFault, Chain};
use crate::error::SettlementError;

verus! {

/// An output as the node reports it: the address text, if the script has one,
/// and the amount in satoshis.
#[derive(Debug, Clone)]
pub struct TxOutput {
    pub address: Option<String>,
    pub amount: u64,
}

/// An output whose address was resolved, with its position in the transaction.
#[derive(Debug, Clone)]
pub struct ResolvedOutput {
    pub index: usize,
    pub address: String,
    pub amount: u64,
}

/// The payment, the change if there is one, and the change address and amount
/// to report (the fallback address and zero when there is no change).
#[derive(Debug, Clone)]
pub struct ClassifiedOutputs {
    pub payment: ResolvedOutput,
    pub change: Option<ResolvedOutput>,
    pub change_address: String,
    pub change_amount: u64,
}

/// How an output's address resolves on `chain`; `None` for an output without one.
pub open spec fn resolution_of(o: TxOutput, chain: Chain) -> Option<Result<Seq<char>, AddressFault>> {
    match o.address {
        Some(raw) => Some(address_resolution(raw@, chain)),
        None => None,
    }
}

/// The output pays `counterparty`.
pub open spec fn pays(o: TxOutput, chain: Chain, counterparty: Seq<char>) -> bool {
    resolution_of(o, chain) == Some(Ok::<Seq<char>, AddressFault>(counterparty))
}

/// The output resolves to an address other than `counterparty`.
pub open spec fn returns_change(o: TxOutput, chain: Chain, counterparty: Seq<char>) -> bool {
    match resolution_of(o, chain) {
        Some(Ok(a)) => a != counterparty,
        _ => false,
    }
}

/// The output has an address that does not resolve on `chain`.
pub open spec fn unresolved(o: TxOutput, chain: Chain) -> bool {
    resolution_of(o, chain) matches Some(Err(_))
}

/// The first position of `s` that meets `p`.
pub open spec fn first_where(s: Seq<TxOutput>, p: spec_fn(TxOutput) -> bool) -> Option<int>
    decreases s.len(),
{
    if s.len() == 0 {
        None
    } else {
        match first_where(s.drop_last(), p) {
            Some(i) => Some(i),
            None => if p(s.last()) { Some(s.len() - 1) } else { None },
        }
    }
}

/// The test for an output that pays `counterparty`.
pub open spec fn payment_test(chain: Chain, counterparty: Seq<char>) -> spec_fn(TxOutput) -> bool {
    |o: TxOutput| pays(o, chain, counterparty)
}

/// The test for an output that returns change.
pub open spec fn change_test(chain: Chain, counterparty: Seq<char>) -> spec_fn(TxOutput) -> bool {
    |o: TxOutput| returns_change(o, chain, counterparty)
}

/// The test for an output whose address does not resolve.
pub open spec fn unresolved_test(chain: Chain) -> spec_fn(TxOutput) -> bool {
    |o: TxOutput| unresolved(o, chain)
}

/// The position of the payment: the first output that pays the counterparty.
pub open spec fn first_payment(outs: Seq<TxOutput>, chain: Chain, counterparty: Seq<char>) -> Option<int> {
    first_where(outs, payment_test(chain, counterparty))
}

/// The position of the change: the first output that resolves to another address.
pub open spec fn first_change(outs: Seq<TxOutput>, chain: Chain, counterparty: Seq<char>) -> Option<int> {
    first_where(outs, change_test(chain, counterparty))
}

/// The position of the first output whose address does not resolve.
pub open spec fn first_unresolved(outs: Seq<TxOutput>, chain: Chain) -> Option<int> {
    first_where(outs, unresolved_test(chain))
}

/// The change amount that a classification reports.
pub open spec fn change_amount_of(outs: Seq<TxOutput>, chain: Chain, counterparty: Seq<char>) -> nat {
    match first_change(outs, chain, counterparty) {
        Some(k) => outs[k].amount as nat,
        None => 0,
    }
}

/// The change address that a classification reports.
pub open spec fn change_address_of(outs: Seq<TxOutput>, chain: Chain, counterparty: Seq<char>, fallback: Seq<char>) -> Seq<char> {
    match first_change(outs, chain, counterparty) {
        Some(k) => match resolution_of(outs[k], chain) {
            Some(Ok(a)) => a,
            _ => fallback,
        },
        None => fallback,
    }
}

/// What a classification reports, given where the payment is.
pub open spec fn classified_as(
    c: ClassifiedOutputs,
    outs: Seq<TxOutput>,
    chain: Chain,
    counterparty: Seq<char>,
    fallback: Seq<char>,
    p: int,
) -> bool {
    &&& c.payment.index == p
    &&& c.payment.address@ == counterparty
    &&& c.payment.amount == outs[p].amount
    &&& c.change_amount == change_amount_of(outs, chain, counterparty)
    &&& c.change_address@ == change_address_of(outs, chain, counterparty, fallback)
    &&& match first_change(outs, chain, counterparty) {
        Some(k) => c.change matches Some(ch) && ch.index == k && ch.amount == outs[k].amount
            && resolution_of(outs[k], chain) == Some(Ok::<Seq<char>, AddressFault>(ch.address@))
            && c.change_address@ == ch.address@,
        None => c.change is None && c.change_address@ == fallback,
    }
}

/// The error that a classification without a payment reports.
pub open spec fn missing_payment(e: SettlementError, outs: Seq<TxOutput>, chain: Chain, counterparty: Seq<char>) -> bool {
    match first_unresolved(outs, chain) {
        Some(k) => match resolution_of(outs[k], chain) {
            Some(Err(fault)) => refusal(e, outs[k].address->0@, fault),
            _ => false,
        },
        None => e matches SettlementError::UnsupportedShape { counterparty: c } && c@ == counterparty,
    }
}

proof fn lemma_first_where_step(s: Seq<TxOutput>, p: spec_fn(TxOutput) -> bool, i: int)
    requires
        0 <= i < s.len(),
    ensures
        first_where(s.take(i + 1), p) == match first_where(s.take(i), p) {
            Some(j) => Some(j),
            None => if p(s[i]) { Some(i) } else { None },
        },
{
    assert(s.take(i + 1).drop_last() =~= s.take(i));
}

pub(crate) proof fn lemma_first_where_found(s: Seq<TxOutput>, p: spec_fn(TxOutput) -> bool)
    ensures
        match first_where(s, p) {
            Some(i) => 0 <= i < s.len() && p(s[i]) && forall|j: int| 0 <= j < i ==> !p(#[trigger] s[j]),
            None => forall|j: int| 0 <= j < s.len() ==> !p(#[trigger] s[j]),
        },
    decreases s.len(),
{
    if s.len() > 0 {
        lemma_first_where_found(s.drop_last(), p);
        assert forall|j: int| 0 <= j < s.len() - 1 implies s.drop_last()[j] == s[j] by {}
    }
}

/// Classifies `outputs` against the counterparty's address. The payment is the
/// first output that resolves to the counterparty; the change is the first that
/// resolves to another address, or absent, reported then as `fallback` and zero.
/// Outputs whose address does not resolve take no part. Without a payment the
/// call fails: with the refusal of the first unresolved address, if any, else
/// with `UnsupportedShape`.
pub fn classify(outputs: &Vec<TxOutput>, counterparty: &Address, fallback: &Address, chain: Chain) -> (r: Result<ClassifiedOutputs, SettlementError>)
    ensures
        match first_payment(outputs@, chain, counterparty.text@) {
            Some(p) => r matches Ok(c) && classified_as(c, outputs@, chain, counterparty.text@, fallback.text@, p),
            None => r matches Err(e) && missing_payment(e, outputs@, chain, counterparty.text@),
        },
{
    let ghost outs = outputs@;
    let ghost cp = counterparty.text@;
    let mut payment: Option<ResolvedOutput> = None;
    let mut change: Option<ResolvedOutput> = None;
    let mut fault: Option<(usize, AddressFault)> = None;
    let mut i: usize = 0;
    while i < outputs.len()
        invariant
            i <= outs.len(),
            outs == outputs@,
            cp == counterparty.text@,
            match first_where(outs.take(i as int), payment_test(chain, cp)) {
                Some(p) => 0 <= p < i && (payment matches Some(o) && o.index == p && o.address@ == cp && o.amount == outs[p].amount),
                None => payment is None,
            },
            match first_where(outs.take(i as int), change_test(chain, cp)) {
                Some(k) => 0 <= k < i && (change matches Some(o) && o.index == k && o.amount == outs[k].amount
                    && resolution_of(outs[k], chain) == Some(Ok::<Seq<char>, AddressFault>(o.address@))),
                None => change is None,
            },
            match first_where(outs.take(i as int), unresolved_test(chain)) {
                Some(k) => 0 <= k < i && (fault matches Some(f) && f.0 == k && resolution_of(outs[k], chain) == Some(Err::<Seq<char>, AddressFault>(f.1))),
                None => fault is None,
            },
        decreases outs.len() - i,
    {
        proof {
            lemma_first_where_step(outs, payment_test(chain, cp), i as int);
            lemma_first_where_step(outs, change_test(chain, cp), i as int);
            lemma_first_where_step(outs, unresolved_test(chain), i as int);
        }
        let out = &outputs[i];
        match &out.address {
            None => {},
            Some(raw) => {
                match require_network(raw.as_str(), chain) {
                    Ok(text) => {
                        if text == counterparty.text {
                            if payment.is_none() {
                                payment = Some(ResolvedOutput { index: i, address: text, amount: out.amount });
                            }
                        } else if change.is_none() {
                            change = Some(ResolvedOutput { index: i, address: text, amount: out.amount });
                        }
                    },
                    Err(f) => {
                        if fault.is_none() {
                            fault = Some((i, f));
                        }
                    },
                }
            },
        }
        i = i + 1;
    }
    proof {
        assert(outs.take(outs.len() as int) =~= outs);
        lemma_first_where_found(outs, unresolved_test(chain));
    }
    match payment {
        Some(p) => {
            let (change_address, change_amount) = match &change {
                Some(c) => (c.address.clone(), c.amount),
                None => (fallback.text.clone(), 0),
            };
            Ok(ClassifiedOutputs { payment: p, change, change_address, change_amount })
        },
        None => match fault {
            Some((k, f)) => {
                let raw = outputs[k].address.as_ref().unwrap();
                Err(refusal_error(raw.as_str(), f))
            },
            None => Err(SettlementError::UnsupportedShape { counterparty: counterparty.text.clone() }),
        },
    }
}

/// Where `first_where` stops: at the first position that meets `p`.
pub(crate) proof fn lemma_first_where_is(s: Seq<TxOutput>, p: spec_fn(TxOutput) -> bool, i: int)
    requires
        0 <= i < s.len(),
        p(s[i]),
        forall|j: int| 0 <= j < i ==> !p(#[trigger] s[j]),
    ensures
        first_where(s, p) == Some(i),
    decreases s.len(),
{
    let d = s.drop_last();
    if i < s.len() - 1 {
        assert(d[i] == s[i]);
        assert forall|j: int| 0 <= j < i implies !p(#[trigger] d[j]) by {
            assert(d[j] == s[j]);
        }
        lemma_first_where_is(d, p, i);
    } else {
        lemma_first_where_found(d, p);
        match first_where(d, p) {
            Some(k) => {
                assert(d[k] == s[k]);
            },
            None => {},
        }
    }
}

/// The amounts of the outputs, in order.
pub fn output_amounts(outputs: &Vec<TxOutput>) -> (r: Vec<u64>)
    ensures
        r@ == outputs@.map_values(|o: TxOutput| o.amount),
{
    let mut r: Vec<u64> = Vec::new();
    let mut i: usize = 0;
    while i < outputs.len()
        invariant
            i <= outputs@.len(),
            r@ == outputs@.take(i as int).map_values(|o: TxOutput| o.amount),
        decreases outputs@.len() - i,
    {
        r.push(outputs[i].amount);
        i = i + 1;
        assert(r@ =~= outputs@.take(i as int).map_values(|o: TxOutput| o.amount));
    }
    assert(outputs@.take(i as int) =~= outputs@);
    r
}

} // verus!
