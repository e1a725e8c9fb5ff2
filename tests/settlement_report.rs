use settlement::address::{Address, Chain, Role};
use settlement::classify::TxOutput;
use settlement::error::SettlementError;
use settlement::provision::{NodeAction, NodeEvent, ProvisionState, WalletProvisioner};
use settlement::reconcile::settle;
use settlement::record::SettlementRecord;

const MINER: &str = "bcrt1qw508d6qejxtdg4y5r3zarvary0c5xw7kygt080";
const TRADER: &str = "bcrt1qzyg3zyg3zyg3zyg3zyg3zyg3zyg3zyg3lgth6c";

fn sample_record() -> SettlementRecord {
    SettlementRecord {
        txid: "abc123".to_string(),
        sender_address: "bcrt1qminer".to_string(),
        input_amount: 12_100_000_000,
        counterparty_address: "bcrt1qtrader".to_string(),
        payment_amount: 2_000_000_000,
        change_address: "bcrt1qminer".to_string(),
        change_amount: 10_099_990_000,
        fee: 10_000,
        block_height: 102,
        block_hash: "00..ff".to_string(),
    }
}

#[test]
fn report_field_order() {
    let text = sample_record().render();
    assert_eq!(
        text,
        "abc123\nbcrt1qminer\n121\nbcrt1qtrader\n20\nbcrt1qminer\n100.9999\n0.0001\n102\n00..ff"
    );
    let lines: Vec<&str> = text.split('\n').collect();
    assert_eq!(lines.len(), 10);
    assert!(!text.ends_with('\n'));
}

#[test]
fn settle_builds_record() {
    let miner = Address::resolve(MINER, "Mining Reward", Role::OwnWallet, Chain::Regtest).unwrap();
    let trader = Address::resolve(TRADER, "Received", Role::Counterparty, Chain::Regtest).unwrap();
    let outs = vec![
        TxOutput { address: Some(TRADER.to_string()), amount: 2_000_000_000 },
        TxOutput { address: Some(MINER.to_string()), amount: 2_999_990_000 },
    ];
    let rec = settle("ff00".to_string(), &miner, &trader, &outs, &vec![5_000_000_000], Chain::Regtest, 102, "beef".to_string()).unwrap();
    assert_eq!(rec.payment_amount, 2_000_000_000);
    assert_eq!(rec.counterparty_address, TRADER);
    assert_eq!(rec.change_address, MINER);
    assert_eq!(rec.change_amount, 2_999_990_000);
    assert_eq!(rec.fee, 10_000);
    assert_eq!(rec.input_amount, 5_000_000_000);
    assert_eq!(rec.block_height, 102);
    assert_eq!(
        rec.render(),
        format!("ff00\n{MINER}\n50\n{TRADER}\n20\n{MINER}\n29.9999\n0.0001\n102\nbeef")
    );
}

#[test]
fn settle_without_payment_fails() {
    let miner = Address::resolve(MINER, "a", Role::OwnWallet, Chain::Regtest).unwrap();
    let trader = Address::resolve(TRADER, "b", Role::Counterparty, Chain::Regtest).unwrap();
    let outs = vec![TxOutput { address: Some(MINER.to_string()), amount: 1 }];
    let r = settle("t".to_string(), &miner, &trader, &outs, &vec![2], Chain::Regtest, 1, "h".to_string());
    assert_eq!(r.unwrap_err(), SettlementError::UnsupportedShape { counterparty: TRADER.to_string() });
}

#[test]
fn provision_already_loaded() {
    let (mut p, a) = WalletProvisioner::new("Miner");
    assert_eq!(a, NodeAction::ListWallets);
    assert!(p.outcome().is_none());
    assert_eq!(p.step(NodeEvent::Listed { present: true }), NodeAction::Finish);
    let h = p.outcome().unwrap().unwrap();
    assert_eq!(h.name, "Miner");
    assert!(h.active);
}

#[test]
fn provision_load_then_create_then_reload() {
    let (mut p, _) = WalletProvisioner::new("Trader");
    assert_eq!(p.step(NodeEvent::Listed { present: false }), NodeAction::Load);
    assert_eq!(p.step(NodeEvent::Refused), NodeAction::Create);
    assert_eq!(p.state, ProvisionState::Creating);
    assert_eq!(p.step(NodeEvent::Refused), NodeAction::Load);
    assert_eq!(p.step(NodeEvent::Succeeded), NodeAction::Finish);
    assert_eq!(p.outcome().unwrap().unwrap().name, "Trader");
}

#[test]
fn provision_create_succeeds() {
    let (mut p, _) = WalletProvisioner::new("Trader");
    p.step(NodeEvent::Listed { present: false });
    p.step(NodeEvent::Refused);
    assert_eq!(p.step(NodeEvent::Succeeded), NodeAction::Finish);
    assert_eq!(p.state, ProvisionState::Loaded);
}

#[test]
fn provision_fails_after_one_retry() {
    let (mut p, _) = WalletProvisioner::new("Trader");
    p.step(NodeEvent::Listed { present: false });
    p.step(NodeEvent::Refused);
    p.step(NodeEvent::Refused);
    assert_eq!(p.step(NodeEvent::Refused), NodeAction::Abort);
    assert_eq!(p.outcome().unwrap().unwrap_err(), SettlementError::WalletState { wallet: "Trader".to_string() });
    assert_eq!(p.step(NodeEvent::Succeeded), NodeAction::Abort);
}

#[test]
fn provision_twice_is_idempotent() {
    // first run: wallet absent, created; second run finds it loaded
    let (mut first, _) = WalletProvisioner::new("Miner");
    first.step(NodeEvent::Listed { present: false });
    first.step(NodeEvent::Refused);
    first.step(NodeEvent::Succeeded);
    let h1 = first.outcome().unwrap().unwrap();
    let (mut second, _) = WalletProvisioner::new("Miner");
    assert_eq!(second.step(NodeEvent::Listed { present: true }), NodeAction::Finish);
    let h2 = second.outcome().unwrap().unwrap();
    assert_eq!(h1.name, h2.name);
}
