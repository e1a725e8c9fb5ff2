//! Idempotent provisioning of a named wallet on the node: the decisions of the
//! list / load / create / load-again sequence as a state machine. Whoever talks
//! to the node performs each action and feeds back what happened.
use vstd::prelude::*;
use crate::error::SettlementError;

verus! {

/// Where provisioning of one wallet stands. `Loaded` and `Failed` are final.
#[derive(Debug, Clone, Copy, PartialEq, Eq, Structural)]
pub enum ProvisionState {
    /// The loaded wallets have not been listed yet.
    Unchecked,
    /// A load was asked for.
    Loading,
    /// The load failed; a create was asked for.
    Creating,
    /// The create failed too; one more load was asked for.
    Reloading,
    Loaded,
    Failed,
}

/// What to ask of the node next.
#[derive(Debug, Clone, Copy, PartialEq, Eq, Structural)]
pub enum NodeAction {
    ListWallets,
    Load,
    Create,
    /// Stop: the wallet is loaded.
    Finish,
    /// Stop: the wallet cannot be provisioned.
    Abort,
}

/// What the node answered to the last action.
#[derive(Debug, Clone, Copy, PartialEq, Eq, Structural)]
pub enum NodeEvent {
    /// The wallet list came back; `present` says whether it holds the wallet.
    Listed { present: bool },
    Succeeded,
    Refused,
}

/// The next state and action after `event` in `state`. An event that does not
/// answer the state's action fails provisioning.
pub open spec fn transition(state: ProvisionState, event: NodeEvent) -> (ProvisionState, NodeAction) {
    match state {
        ProvisionState::Unchecked => match event {
            NodeEvent::Listed { present: true } => (ProvisionState::Loaded, NodeAction::Finish),
            NodeEvent::Listed { present: false } => (ProvisionState::Loading, NodeAction::Load),
            _ => (ProvisionState::Failed, NodeAction::Abort),
        },
        ProvisionState::Loading => match event {
            NodeEvent::Succeeded => (ProvisionState::Loaded, NodeAction::Finish),
            NodeEvent::Refused => (ProvisionState::Creating, NodeAction::Create),
            _ => (ProvisionState::Failed, NodeAction::Abort),
        },
        ProvisionState::Creating => match event {
            NodeEvent::Succeeded => (ProvisionState::Loaded, NodeAction::Finish),
            NodeEvent::Refused => (ProvisionState::Reloading, NodeAction::Load),
            _ => (ProvisionState::Failed, NodeAction::Abort),
        },
        ProvisionState::Reloading => match event {
            NodeEvent::Succeeded => (ProvisionState::Loaded, NodeAction::Finish),
            _ => (ProvisionState::Failed, NodeAction::Abort),
        },
        ProvisionState::Loaded => (ProvisionState::Loaded, NodeAction::Finish),
        ProvisionState::Failed => (ProvisionState::Failed, NodeAction::Abort),
    }
}

/// A wallet known to be active on the node.
#[derive(Debug, Clone)]
pub struct WalletHandle {
    pub name: String,
    pub active: bool,
}

/// Provisioning of the wallet `name`.
#[derive(Debug, Clone)]
pub struct WalletProvisioner {
    pub name: String,
    pub state: ProvisionState,
}

impl WalletProvisioner {
    /// Starts provisioning `name`; the first action is `ListWallets`.
    pub fn new(name: &str) -> (r: (WalletProvisioner, NodeAction))
        ensures
            r.0.name@ == name@,
            r.0.state == ProvisionState::Unchecked,
            r.1 == NodeAction::ListWallets,
    {
        (WalletProvisioner { name: name.to_owned(), state: ProvisionState::Unchecked }, NodeAction::ListWallets)
    }

    /// Takes the node's answer to the last action and says what to do next.
    pub fn step(&mut self, event: NodeEvent) -> (r: NodeAction)
        ensures
            (final(self).state, r) == transition(old(self).state, event),
            final(self).name == old(self).name,
    {
        let (state, action) = match self.state {
            ProvisionState::Unchecked => match event {
                NodeEvent::Listed { present: true } => (ProvisionState::Loaded, NodeAction::Finish),
                NodeEvent::Listed { present: false } => (ProvisionState::Loading, NodeAction::Load),
                _ => (ProvisionState::Failed, NodeAction::Abort),
            },
            ProvisionState::Loading => match event {
                NodeEvent::Succeeded => (ProvisionState::Loaded, NodeAction::Finish),
                NodeEvent::Refused => (ProvisionState::Creating, NodeAction::Create),
                _ => (ProvisionState::Failed, NodeAction::Abort),
            },
            ProvisionState::Creating => match event {
                NodeEvent::Succeeded => (ProvisionState::Loaded, NodeAction::Finish),
                NodeEvent::Refused => (ProvisionState::Reloading, NodeAction::Load),
                _ => (ProvisionState::Failed, NodeAction::Abort),
            },
            ProvisionState::Reloading => match event {
                NodeEvent::Succeeded => (ProvisionState::Loaded, NodeAction::Finish),
                _ => (ProvisionState::Failed, NodeAction::Abort),
            },
            ProvisionState::Loaded => (ProvisionState::Loaded, NodeAction::Finish),
            ProvisionState::Failed => (ProvisionState::Failed, NodeAction::Abort),
        };
        self.state = state;
        action
    }

    /// The outcome once provisioning has ended: the handle of the loaded wallet,
    /// or `WalletState` naming it; `None` while it runs.
    pub fn outcome(&self) -> (r: Option<Result<WalletHandle, SettlementError>>)
        ensures
            self.state == ProvisionState::Loaded ==> (r matches Some(Ok(h)) && h.name@ == self.name@ && h.active),
            self.state == ProvisionState::Failed ==> (r matches Some(Err(SettlementError::WalletState { wallet })) && wallet@ == self.name@),
            self.state != ProvisionState::Loaded && self.state != ProvisionState::Failed ==> r is None,
    {
        match self.state {
            ProvisionState::Loaded => Some(Ok(WalletHandle { name: self.name.clone(), active: true })),
            ProvisionState::Failed => Some(Err(SettlementError::WalletState { wallet: self.name.clone() })),
            _ => None,
        }
    }
}

/// A node's wallets: those loaded, and those stored on disk.
pub struct NodeWallets {
    pub loaded: Set<Seq<char>>,
    pub stored: Set<Seq<char>>,
}

/// How a node answers `action` on wallet `name`, and its wallets afterwards.
/// A load succeeds on a stored wallet that is not loaded; a create succeeds on a
/// wallet that is not stored, and loads it.
pub open spec fn respond(node: NodeWallets, name: Seq<char>, action: NodeAction) -> (NodeWallets, NodeEvent) {
    match action {
        NodeAction::ListWallets => (node, NodeEvent::Listed { present: node.loaded.contains(name) }),
        NodeAction::Load => if node.stored.contains(name) && !node.loaded.contains(name) {
            (NodeWallets { loaded: node.loaded.insert(name), stored: node.stored }, NodeEvent::Succeeded)
        } else {
            (node, NodeEvent::Refused)
        },
        NodeAction::Create => if !node.stored.contains(name) {
            (NodeWallets { loaded: node.loaded.insert(name), stored: node.stored.insert(name) }, NodeEvent::Succeeded)
        } else {
            (node, NodeEvent::Refused)
        },
        _ => (node, NodeEvent::Succeeded),
    }
}

/// Provisioning driven against a node for at most `fuel` actions.
pub open spec fn drive(state: ProvisionState, action: NodeAction, node: NodeWallets, name: Seq<char>, fuel: nat) -> (ProvisionState, NodeWallets)
    decreases fuel,
{
    if fuel == 0 || action == NodeAction::Finish || action == NodeAction::Abort {
        (state, node)
    } else {
        let (next_node, event) = respond(node, name, action);
        let (next_state, next_action) = transition(state, event);
        drive(next_state, next_action, next_node, name, (fuel - 1) as nat)
    }
}

/// One provisioning of `name` from the start; four actions always suffice.
pub open spec fn ensure_wallet(node: NodeWallets, name: Seq<char>) -> (ProvisionState, NodeWallets) {
    drive(ProvisionState::Unchecked, NodeAction::ListWallets, node, name, 4)
}

/// Provisioning is idempotent: after one provisioning of `name` that ended with
/// the wallet loaded, a second one against the node as it was left succeeds at
/// once and leaves the node unchanged.
pub proof fn lemma_provisioning_idempotent(node: NodeWallets, name: Seq<char>)
    requires
        ensure_wallet(node, name).0 == ProvisionState::Loaded,
    ensures
        ensure_wallet(ensure_wallet(node, name).1, name).0 == ProvisionState::Loaded,
        ensure_wallet(ensure_wallet(node, name).1, name).1 == ensure_wallet(node, name).1,
{
    reveal_with_fuel(drive, 5);
    let after = ensure_wallet(node, name).1;
    assert(after.loaded.contains(name));
    reveal_with_fuel(drive, 2);
}

} // verus!
