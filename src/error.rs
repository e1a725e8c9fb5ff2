//! Errors of a settlement run, each with the context that locates it.
use vstd::prelude::*;

verus! {

/// What went wrong, and where.
#[derive(Debug, Clone, PartialEq, Eq)]
pub enum SettlementError {
    /// The node could not be reached.
    Connectivity { detail: String },
    /// The node refused the credentials.
    Auth { detail: String },
    /// A wallet could neither be loaded nor created.
    WalletState { wallet: String },
    /// A well-formed address that belongs to another network.
    AddressNetworkMismatch { address: String },
    /// Writing the report failed.
    IOFailure { detail: String },
    /// Text from the node that does not decode (an address that does not parse).
    ProtocolDecode { detail: String },
    /// No output of the transaction pays the counterparty.
    UnsupportedShape { counterparty: String },
}

} // verus!
