//! The network fee of a transaction, from its amounts or from the node's report.
use vstd::prelude::*;

verus! {

/// The sum of a sequence of satoshi amounts.
pub open spec fn total(s: Seq<u64>) -> nat
    decreases s.len(),
{
    if s.len() == 0 {
        0
    } else {
        total(s.drop_last()) + s.last() as nat
    }
}

/// The distance between two amounts.
pub open spec fn distance(a: nat, b: nat) -> nat {
    if a >= b { (a - b) as nat } else { (b - a) as nat }
}

/// The fee: the distance between what the inputs bring and what the outputs take.
pub open spec fn fee_of(inputs: Seq<u64>, outputs: Seq<u64>) -> nat {
    distance(total(inputs), total(outputs))
}

/// The magnitude of a signed amount.
pub open spec fn magnitude(d: int) -> nat {
    if d >= 0 { d as nat } else { (-d) as nat }
}

proof fn lemma_total_bound(s: Seq<u64>)
    ensures
        total(s) <= s.len() * (u64::MAX as nat),
    decreases s.len(),
{
    if s.len() > 0 {
        lemma_total_bound(s.drop_last());
        assert(total(s) <= (s.len() - 1) * (u64::MAX as nat) + (u64::MAX as nat));
        assert((s.len() - 1) * (u64::MAX as nat) + (u64::MAX as nat) == s.len() * (u64::MAX as nat)) by (nonlinear_arith);
    }
}

/// The sum of `amounts`.
pub fn amount_total(amounts: &Vec<u64>) -> (r: u128)
    ensures
        r == total(amounts@),
{
    let mut acc: u128 = 0;
    let mut i: usize = 0;
    while i < amounts.len()
        invariant
            i <= amounts@.len(),
            acc == total(amounts@.take(i as int)),
        decreases amounts@.len() - i,
    {
        proof {
            assert(amounts@.take(i + 1).drop_last() =~= amounts@.take(i as int));
            lemma_total_bound(amounts@.take(i + 1));
            assert((i + 1) * (u64::MAX as nat) <= (usize::MAX as nat) * (u64::MAX as nat)) by (nonlinear_arith)
                requires i + 1 <= usize::MAX;
            assert((usize::MAX as nat) * (u64::MAX as nat) <= u128::MAX) by (nonlinear_arith)
                requires usize::MAX <= u64::MAX;
        }
        acc = acc + amounts[i] as u128;
        i = i + 1;
    }
    assert(amounts@.take(i as int) =~= amounts@);
    acc
}

/// The fee of a transaction: the distance between the sum of its input amounts
/// and the sum of its output amounts. Never negative.
pub fn compute_fee(inputs: &Vec<u64>, outputs: &Vec<u64>) -> (r: u128)
    ensures
        r == fee_of(inputs@, outputs@),
        r >= 0,
{
    let a = amount_total(inputs);
    let b = amount_total(outputs);
    if a >= b { a - b } else { b - a }
}

/// A fee as the node reported it. Without a report the fee is zero and marked
/// as not confident.
#[derive(Debug, Clone, Copy, PartialEq, Eq, Structural)]
pub struct ReportedFee {
    pub sats: u64,
    pub confident: bool,
}

/// The fee from the node's signed fee field: its magnitude, or zero without
/// confidence when the field is missing.
pub fn fee_from_report(reported: Option<i64>) -> (r: ReportedFee)
    ensures
        match reported {
            Some(d) => r.sats == magnitude(d as int) && r.confident,
            None => r.sats == 0 && !r.confident,
        },
{
    match reported {
        Some(d) => {
            let sats: u64 = if d >= 0 { d as u64 } else { (-(d as i128)) as u64 };
            ReportedFee { sats, confident: true }
        },
        None => ReportedFee { sats: 0, confident: false },
    }
}

/// One entry of the node's per-wallet breakdown of a transaction: whether it is
/// a send, and its signed amount in satoshis.
#[derive(Debug, Clone, Copy, PartialEq, Eq, Structural)]
pub struct TxDetail {
    pub is_send: bool,
    pub amount: i64,
}

/// The position of the first send entry.
pub open spec fn first_send(details: Seq<TxDetail>) -> Option<int>
    decreases details.len(),
{
    if details.len() == 0 {
        None
    } else {
        match first_send(details.drop_last()) {
            Some(i) => Some(i),
            None => if details.last().is_send { Some(details.len() - 1) } else { None },
        }
    }
}

/// What the sending wallet was debited: the magnitude of the first send entry,
/// or zero without one.
pub open spec fn debit_of(details: Seq<TxDetail>) -> nat {
    match first_send(details) {
        Some(i) => magnitude(details[i].amount as int),
        None => 0,
    }
}

/// What the sending wallet was debited, as `debit_of` states.
pub fn sender_debit(details: &Vec<TxDetail>) -> (r: u64)
    ensures
        r == debit_of(details@),
{
    let mut i: usize = 0;
    while i < details.len()
        invariant
            i <= details@.len(),
            first_send(details@.take(i as int)) is None,
        decreases details@.len() - i,
    {
        assert(details@.take(i + 1).drop_last() =~= details@.take(i as int));
        if details[i].is_send {
            let d = details[i].amount;
            proof {
                lemma_first_send_prefix(details@, i as int);
            }
            return if d >= 0 { d as u64 } else { (-(d as i128)) as u64 };
        }
        i = i + 1;
    }
    assert(details@.take(i as int) =~= details@);
    0
}

proof fn lemma_first_send_prefix(s: Seq<TxDetail>, i: int)
    requires
        0 <= i < s.len(),
        first_send(s.take(i + 1)) == Some(i),
    ensures
        first_send(s) == Some(i),
    decreases s.len(),
{
    if s.len() > i + 1 {
        assert(s.drop_last().take(i + 1) =~= s.take(i + 1));
        lemma_first_send_prefix(s.drop_last(), i);
    } else {
        assert(s.take(i + 1) =~= s);
    }
}

} // verus!
