//! What settlement asks of the services around it, and what they answer.
use vstd::prelude::*;

use crate::account::{Balance, BalanceLocation, Commitment, Order, TokenAddress};
use crate::ids::{AccountId, OrderId};
use crate::settlement::party::{MatchResult, SettlementObligation};
use crate::settlement::state::SettleInternalMatchTaskState;

verus! {

/// The balances of a private party whose Merkle proofs a settlement changes.
#[derive(Debug)]
pub struct BalanceProofs {
    /// The account that holds the balances
    pub account_id: AccountId,
    /// The balance that the party pays from
    pub input_balance: Balance,
    /// The balance that the party receives to
    pub output_balance: Balance,
}

/// The Merkle proofs to take for one party from the receipt of a settlement.
#[derive(Debug)]
pub struct ReceiptProofs {
    /// The order after the settlement
    pub order: Order,
    /// The balances after the settlement, where they stand in the darkpool
    pub balances: Option<BalanceProofs>,
}

/// The signatures that authorize the validity proofs of a privately settled order.
#[derive(Debug)]
pub struct SettledAuth {
    /// The signature over the intent
    pub intent_signature: String,
    /// The signature over the output balance
    pub output_balance_signature: String,
}

/// A settlement bundle that a service has built and keeps.
pub type BundleHandle = u64;

/// A call to a service.
#[derive(Debug)]
pub enum Action {
    /// Read an order from the local state
    ReadOrder { order_id: OrderId },
    /// Read a balance from the local state
    ReadBalance { account_id: AccountId, token: TokenAddress, location: BalanceLocation },
    /// Build the settlement bundle of one party
    BuildBundle { order_id: OrderId, obligation: SettlementObligation },
    /// Submit the match, with its public obligation bundle and the settlement bundles of
    /// both parties, and await its receipt
    SettleMatch { match_result: MatchResult, bundle0: BundleHandle, bundle1: BundleHandle },
    /// Build the order that an obligation leaves
    BuildUpdatedIntent { order_id: OrderId, obligation: SettlementObligation },
    /// Build the input balance that an obligation leaves
    BuildInputBalance { account_id: AccountId, obligation: SettlementObligation },
    /// Build the output balance that an obligation leaves
    BuildOutputBalance {
        account_id: AccountId,
        order: Order,
        obligation: SettlementObligation,
        apply_fees: bool,
    },
    /// Build the balance that an obligation leaves of an EOA balance
    BuildEoaBalance {
        account_id: AccountId,
        order: Order,
        obligation: SettlementObligation,
        balance: Balance,
    },
    /// Record a state of the task in its queue, and await consensus on it
    PersistState { state: SettleInternalMatchTaskState },
    /// Store the Merkle proofs of both parties, side by side
    StoreReceiptProofs { party0: ReceiptProofs, party1: ReceiptProofs },
    /// Look a commitment up on chain, and fail where it cannot be found
    FindCommitment { commitment: Commitment },
    /// Fetch the Merkle proof of an order's intent from chain and store it
    SyncIntentProof { order_id: OrderId, commitment: Commitment },
    /// Fetch the Merkle proof of a balance from chain and store it
    SyncBalanceProof { account_id: AccountId, mint: TokenAddress, commitment: Commitment },
    /// Write the balances that a settlement leaves to the local state: `balances`, where
    /// they are given, as the input and the output balance; or else `eoa_balance`, where
    /// it is given, as the input balance. Where neither is, the obligation is taken off
    /// the EOA balance, if the party has one
    WriteBalances {
        account_id: AccountId,
        order: Order,
        obligation: SettlementObligation,
        balances: Option<(Balance, Balance)>,
        eoa_balance: Option<Balance>,
    },
    /// Write the order that a settlement leaves to the local state
    WriteOrder { order: Order },
    /// Read the signatures that authorize an order's validity proofs
    ReadSettledAuth { order_id: OrderId },
    /// Prove the validity of an order's intent
    ProveIntentOnly { order_id: OrderId },
    /// Prove the validity of an order's intent together with its input balance
    ProveIntentAndBalance { account_id: AccountId, order_id: OrderId, signature: String },
    /// Prove the validity of an order's output balance
    ProveOutputBalance {
        account_id: AccountId,
        order_id: OrderId,
        signature: String,
        force: bool,
    },
}

/// What a service answers to a call that succeeds.
#[derive(Debug)]
pub enum Reply {
    /// The call is done
    Done,
    /// An order
    Order(Order),
    /// A balance of the local state, if it holds one
    StoredBalance(Option<Balance>),
    /// A balance that was built
    BuiltBalance(Balance),
    /// A settlement bundle that was built
    Bundle(BundleHandle),
    /// The signatures that authorize validity proofs
    Auth(SettledAuth),
}

impl Action {
    /// Whether a reply is one that this call can have.
    pub open spec fn answered_by(self, reply: Reply) -> bool {
        match self {
            Action::ReadOrder { .. } | Action::BuildUpdatedIntent { .. } => reply is Order,
            Action::ReadBalance { .. } => reply is StoredBalance,
            Action::BuildInputBalance { .. }
            | Action::BuildOutputBalance { .. }
            | Action::BuildEoaBalance { .. } => reply is BuiltBalance,
            Action::BuildBundle { .. } => reply is Bundle,
            Action::ReadSettledAuth { .. } => reply is Auth,
            _ => reply is Done,
        }
    }

    /// Whether a reply is one that this call can have.
    pub fn accepts(&self, reply: &Reply) -> (res: bool)
        ensures
            res == self.answered_by(*reply),
    {
        match (self, reply) {
            (Action::ReadOrder { .. } | Action::BuildUpdatedIntent { .. }, Reply::Order(_)) => true,
            (Action::ReadBalance { .. }, Reply::StoredBalance(_)) => true,
            (
                Action::BuildInputBalance { .. }
                | Action::BuildOutputBalance { .. }
                | Action::BuildEoaBalance { .. },
                Reply::BuiltBalance(_),
            ) => true,
            (Action::BuildBundle { .. }, Reply::Bundle(_)) => true,
            (Action::ReadSettledAuth { .. }, Reply::Auth(_)) => true,
            (Action::ReadOrder { .. } | Action::BuildUpdatedIntent { .. }, _) => false,
            (Action::ReadBalance { .. }, _) => false,
            (
                Action::BuildInputBalance { .. }
                | Action::BuildOutputBalance { .. }
                | Action::BuildEoaBalance { .. },
                _,
            ) => false,
            (Action::BuildBundle { .. }, _) => false,
            (Action::ReadSettledAuth { .. }, _) => false,
            (_, Reply::Done) => true,
            _ => false,
        }
    }

    /// Whether the call changes the local balances or the local order.
    pub open spec fn writes_local_state(self) -> bool {
        self is WriteBalances || self is WriteOrder
    }
}

} // verus!
