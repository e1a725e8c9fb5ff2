//! Settlement reconciliation for a transfer between two wallets of a ledger node:
//! output classification, fee derivation, the settlement record and its report,
//! and the decisions of wallet provisioning.

pub mod address;
pub mod amount;
pub mod classify;
pub mod error;
pub mod fee;
pub mod provision;
pub mod reconcile;
pub mod record;
