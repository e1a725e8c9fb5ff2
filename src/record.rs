//! The settlement record of a confirmed transfer, and its line-oriented report.
use vstd::prelude::*;
use vstd::string::*;
use crate::address::Address;
use crate::amount::{coin_amount_text, coin_text, decimal, decimal_text};
use crate::classify::ClassifiedOutputs;

verus! {

/// What is known of a settled transfer. Amounts are in satoshis.
#[derive(Debug, Clone)]
pub struct SettlementRecord {
    pub txid: String,
    pub sender_address: String,
    pub input_amount: u128,
    pub counterparty_address: String,
    pub payment_amount: u64,
    pub change_address: String,
    pub change_amount: u64,
    pub fee: u128,
    pub block_height: u64,
    pub block_hash: String,
}

/// The ten lines of the report, in their fixed order.
pub open spec fn report_lines(r: SettlementRecord) -> Seq<Seq<char>> {
    seq![
        r.txid@,
        r.sender_address@,
        coin_text(r.input_amount as nat),
        r.counterparty_address@,
        coin_text(r.payment_amount as nat),
        r.change_address@,
        coin_text(r.change_amount as nat),
        coin_text(r.fee as nat),
        decimal(r.block_height as nat),
        r.block_hash@,
    ]
}

/// The report: the ten lines, each but the last followed by a newline.
pub open spec fn report_text(r: SettlementRecord) -> Seq<char> {
    let l = report_lines(r);
    let nl = seq!['\n'];
    l[0] + nl + l[1] + nl + l[2] + nl + l[3] + nl + l[4] + nl + l[5] + nl + l[6] + nl + l[7] + nl + l[8] + nl + l[9]
}

impl SettlementRecord {
    /// Gathers the record: the payment and change as classified, the sender's
    /// funding address and the counterparty's address, and the chain metadata.
    pub fn build(
        txid: String,
        sender: &Address,
        counterparty: &Address,
        input_amount: u128,
        classified: &ClassifiedOutputs,
        fee: u128,
        block_height: u64,
        block_hash: String,
    ) -> (r: SettlementRecord)
        ensures
            r.txid@ == txid@,
            r.sender_address@ == sender.text@,
            r.input_amount == input_amount,
            r.counterparty_address@ == counterparty.text@,
            r.payment_amount == classified.payment.amount,
            r.change_address@ == classified.change_address@,
            r.change_amount == classified.change_amount,
            r.fee == fee,
            r.block_height == block_height,
            r.block_hash@ == block_hash@,
    {
        SettlementRecord {
            txid,
            sender_address: sender.text.clone(),
            input_amount,
            counterparty_address: counterparty.text.clone(),
            payment_amount: classified.payment.amount,
            change_address: classified.change_address.clone(),
            change_amount: classified.change_amount,
            fee,
            block_height,
            block_hash,
        }
    }

    /// The report text, as `report_text` states.
    pub fn render(&self) -> (r: String)
        ensures
            r@ == report_text(*self),
    {
        proof { reveal_strlit("\n"); }
        let mut s = self.txid.clone();
        s.append("\n");
        s.append(self.sender_address.as_str());
        s.append("\n");
        let input = coin_amount_text(self.input_amount);
        s.append(input.as_str());
        s.append("\n");
        s.append(self.counterparty_address.as_str());
        s.append("\n");
        let payment = coin_amount_text(self.payment_amount as u128);
        s.append(payment.as_str());
        s.append("\n");
        s.append(self.change_address.as_str());
        s.append("\n");
        let change = coin_amount_text(self.change_amount as u128);
        s.append(change.as_str());
        s.append("\n");
        let fee = coin_amount_text(self.fee);
        s.append(fee.as_str());
        s.append("\n");
        let height = decimal_text(self.block_height as u128);
        s.append(height.as_str());
        s.append("\n");
        s.append(self.block_hash.as_str());
        s
    }
}

} // verus!
