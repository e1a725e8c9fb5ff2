//! Addresses checked against the network that the node runs.
use vstd::prelude::*;
use crate::error::SettlementError;

verus! {

/// The networks a node can run.
#[derive(Debug, Clone, Copy, PartialEq, Eq, Structural)]
pub enum Chain {
    Bitcoin,
    Testnet,
    Testnet4,
    Signet,
    Regtest,
}

/// Why an address text was not accepted.
#[derive(Debug, Clone, Copy, PartialEq, Eq, Structural)]
pub enum AddressFault {
    /// The text is no address at all.
    Malformed,
    /// The text is an address of another network.
    WrongNetwork,
}

/// Whose an address is.
#[derive(Debug, Clone, Copy, PartialEq, Eq, Structural)]
pub enum Role {
    OwnWallet,
    Counterparty,
}

/// The outcome of parsing `raw` as an address and checking it against `chain`:
/// the canonical text of the address, or why it was refused.
pub uninterp spec fn address_resolution(raw: Seq<char>, chain: Chain) -> Result<Seq<char>, AddressFault>;

/// Relies on bitcoin's `Address::<NetworkUnchecked>::from_str` to parse the text,
/// on `Address::require_network` to check its network, and on `Display` of the
/// checked address for its canonical text. The outcome depends on the text and
/// the network alone.
#[verifier::external_body]
pub(crate) fn require_network(raw: &str, chain: Chain) -> (r: Result<String, AddressFault>)
    ensures
        match r {
            Ok(text) => address_resolution(raw@, chain) == Ok::<Seq<char>, AddressFault>(text@),
            Err(fault) => address_resolution(raw@, chain) == Err::<Seq<char>, AddressFault>(fault),
        },
{
    let network = match chain {
        Chain::Bitcoin => bitcoin::Network::Bitcoin,
        Chain::Testnet => bitcoin::Network::Testnet,
        Chain::Testnet4 => bitcoin::Network::Testnet4,
        Chain::Signet => bitcoin::Network::Signet,
        Chain::Regtest => bitcoin::Network::Regtest,
    };
    match raw.parse::<bitcoin::Address<bitcoin::address::NetworkUnchecked>>() {
        Err(_) => Err(AddressFault::Malformed),
        Ok(unchecked) => match unchecked.require_network(network) {
            Ok(checked) => Ok(checked.to_string()),
            Err(_) => Err(AddressFault::WrongNetwork),
        },
    }
}

/// The error that reports address text `raw` refused for `fault`, naming the text.
pub open spec fn refusal(e: SettlementError, raw: Seq<char>, fault: AddressFault) -> bool {
    match fault {
        AddressFault::WrongNetwork => e matches SettlementError::AddressNetworkMismatch { address } && address@ == raw,
        AddressFault::Malformed => e matches SettlementError::ProtocolDecode { detail } && detail@ == raw,
    }
}

/// Turns a refusal of address text `raw` into the error that names it.
pub fn refusal_error(raw: &str, fault: AddressFault) -> (e: SettlementError)
    ensures
        refusal(e, raw@, fault),
{
    match fault {
        AddressFault::WrongNetwork => SettlementError::AddressNetworkMismatch { address: raw.to_owned() },
        AddressFault::Malformed => SettlementError::ProtocolDecode { detail: raw.to_owned() },
    }
}

/// A network-checked address in its canonical text, with a label and a role.
#[derive(Debug, Clone)]
pub struct Address {
    pub text: String,
    pub label: String,
    pub role: Role,
}

impl Address {
    /// Checks `raw` against `chain`. Fails, naming `raw`, when it is no address
    /// or an address of another network.
    pub fn resolve(raw: &str, label: &str, role: Role, chain: Chain) -> (r: Result<Address, SettlementError>)
        ensures
            match address_resolution(raw@, chain) {
                Ok(text) => r matches Ok(a) && a.text@ == text && a.label@ == label@ && a.role == role,
                Err(fault) => r matches Err(e) && refusal(e, raw@, fault),
            },
    {
        match require_network(raw, chain) {
            Ok(text) => Ok(Address { text, label: label.to_owned(), role }),
            Err(fault) => Err(refusal_error(raw, fault)),
        }
    }
}

} // verus!
