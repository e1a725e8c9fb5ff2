use settlement::address::{Address, Chain, Role};
use settlement::classify::{classify, output_amounts, TxOutput};
use settlement::error::SettlementError;

const MINER: &str = "bcrt1qw508d6qejxtdg4y5r3zarvary0c5xw7kygt080";
const TRADER: &str = "bcrt1qzyg3zyg3zyg3zyg3zyg3zyg3zyg3zyg3lgth6c";
const OTHER: &str = "bcrt1qyg3zyg3zyg3zyg3zyg3zyg3zyg3zyg3zs4w3j0";
const MAINNET: &str = "bc1qw508d6qejxtdg4y5r3zarvary0c5xw7kv8f3t4";
const TESTNET: &str = "tb1qw508d6qejxtdg4y5r3zarvary0c5xw7kxpjzsx";

fn addr(raw: &str, role: Role) -> Address {
    Address::resolve(raw, "label", role, Chain::Regtest).unwrap()
}

fn out(address: &str, amount: u64) -> TxOutput {
    TxOutput { address: Some(address.to_string()), amount }
}

#[test]
fn resolve_accepts_regtest_address() {
    let a = Address::resolve(MINER, "Mining Reward", Role::OwnWallet, Chain::Regtest).unwrap();
    assert_eq!(a.text, MINER);
    assert_eq!(a.label, "Mining Reward");
    assert_eq!(a.role, Role::OwnWallet);
}

#[test]
fn resolve_normalizes_case() {
    let upper = MINER.to_uppercase();
    let a = Address::resolve(&upper, "x", Role::OwnWallet, Chain::Regtest).unwrap();
    assert_eq!(a.text, MINER);
}

#[test]
fn resolve_rejects_other_network() {
    let r = Address::resolve(MAINNET, "x", Role::Counterparty, Chain::Regtest);
    assert_eq!(r.unwrap_err(), SettlementError::AddressNetworkMismatch { address: MAINNET.to_string() });
    let t = Address::resolve(TESTNET, "x", Role::Counterparty, Chain::Regtest);
    assert_eq!(t.unwrap_err(), SettlementError::AddressNetworkMismatch { address: TESTNET.to_string() });
    assert!(Address::resolve(MAINNET, "x", Role::Counterparty, Chain::Bitcoin).is_ok());
}

#[test]
fn resolve_rejects_garbage() {
    let r = Address::resolve("not-an-address", "x", Role::Counterparty, Chain::Regtest);
    assert_eq!(r.unwrap_err(), SettlementError::ProtocolDecode { detail: "not-an-address".to_string() });
}

#[test]
fn two_outputs_payment_and_change() {
    let miner = addr(MINER, Role::OwnWallet);
    let trader = addr(TRADER, Role::Counterparty);
    let outs = vec![out(OTHER, 10_099_990_000), out(TRADER, 2_000_000_000)];
    let c = classify(&outs, &trader, &miner, Chain::Regtest).unwrap();
    assert_eq!(c.payment.index, 1);
    assert_eq!(c.payment.address, TRADER);
    assert_eq!(c.payment.amount, 2_000_000_000);
    let ch = c.change.unwrap();
    assert_eq!(ch.index, 0);
    assert_eq!(ch.address, OTHER);
    assert_eq!(c.change_address, OTHER);
    assert_eq!(c.change_amount, 10_099_990_000);
}

#[test]
fn two_output_amounts_balance() {
    let miner = addr(MINER, Role::OwnWallet);
    let trader = addr(TRADER, Role::Counterparty);
    let outs = vec![out(TRADER, 2_000_000_000), out(MINER, 10_099_990_000)];
    let c = classify(&outs, &trader, &miner, Chain::Regtest).unwrap();
    let inputs = vec![12_100_000_000u64];
    let fee = settlement::fee::compute_fee(&inputs, &output_amounts(&outs));
    assert_eq!(c.payment.amount as u128 + c.change_amount as u128 + fee, 12_100_000_000);
}

#[test]
fn zero_change_uses_fallback() {
    let miner = addr(MINER, Role::OwnWallet);
    let trader = addr(TRADER, Role::Counterparty);
    let outs = vec![out(TRADER, 2_000_000_000)];
    let c = classify(&outs, &trader, &miner, Chain::Regtest).unwrap();
    assert!(c.change.is_none());
    assert_eq!(c.change_amount, 0);
    assert_eq!(c.change_address, MINER);
    assert_eq!(settlement::fee::compute_fee(&vec![2_000_000_000], &output_amounts(&outs)), 0);
}

#[test]
fn first_non_matching_output_is_change() {
    let miner = addr(MINER, Role::OwnWallet);
    let trader = addr(TRADER, Role::Counterparty);
    let outs = vec![out(TRADER, 5), out(OTHER, 7), out(MINER, 9)];
    let c = classify(&outs, &trader, &miner, Chain::Regtest).unwrap();
    assert_eq!(c.change_address, OTHER);
    assert_eq!(c.change_amount, 7);
}

#[test]
fn mismatched_output_does_not_disturb_classification() {
    let miner = addr(MINER, Role::OwnWallet);
    let trader = addr(TRADER, Role::Counterparty);
    let outs = vec![out(MAINNET, 3), out(TRADER, 20), out(OTHER, 100)];
    let c = classify(&outs, &trader, &miner, Chain::Regtest).unwrap();
    assert_eq!(c.payment.index, 1);
    assert_eq!(c.payment.amount, 20);
    assert_eq!(c.change_address, OTHER);
    assert_eq!(c.change_amount, 100);
}

#[test]
fn output_without_address_is_skipped() {
    let miner = addr(MINER, Role::OwnWallet);
    let trader = addr(TRADER, Role::Counterparty);
    let outs = vec![TxOutput { address: None, amount: 0 }, out(TRADER, 20)];
    let c = classify(&outs, &trader, &miner, Chain::Regtest).unwrap();
    assert_eq!(c.payment.index, 1);
    assert!(c.change.is_none());
}

#[test]
fn missing_payment_with_mismatch_names_address() {
    let miner = addr(MINER, Role::OwnWallet);
    let trader = addr(TRADER, Role::Counterparty);
    let outs = vec![out(OTHER, 3), out(MAINNET, 20)];
    let r = classify(&outs, &trader, &miner, Chain::Regtest);
    assert_eq!(r.unwrap_err(), SettlementError::AddressNetworkMismatch { address: MAINNET.to_string() });
}

#[test]
fn missing_payment_with_malformed_address() {
    let miner = addr(MINER, Role::OwnWallet);
    let trader = addr(TRADER, Role::Counterparty);
    let outs = vec![out("garbage", 3)];
    let r = classify(&outs, &trader, &miner, Chain::Regtest);
    assert_eq!(r.unwrap_err(), SettlementError::ProtocolDecode { detail: "garbage".to_string() });
}

#[test]
fn missing_payment_is_unsupported_shape() {
    let miner = addr(MINER, Role::OwnWallet);
    let trader = addr(TRADER, Role::Counterparty);
    let outs = vec![out(OTHER, 3), out(MINER, 4)];
    let r = classify(&outs, &trader, &miner, Chain::Regtest);
    assert_eq!(r.unwrap_err(), SettlementError::UnsupportedShape { counterparty: TRADER.to_string() });
    let empty = classify(&vec![], &trader, &miner, Chain::Regtest);
    assert!(matches!(empty, Err(SettlementError::UnsupportedShape { .. })));
}

#[test]
fn amounts_in_order() {
    let outs = vec![out(OTHER, 3), TxOutput { address: None, amount: 9 }];
    assert_eq!(output_amounts(&outs), vec![3, 9]);
}
