//! Reading the local state of a party.
use vstd::prelude::*;

use crate::account::{Balance, BalanceLocation, Order};
use crate::settlement::party::{PartyId, PartyLocalState};
use crate::settlement::service::{Action, Reply};
use crate::settlement::task::SettleInternalMatchTask;

verus! {

/// How far the local state of a party has been read.
#[derive(Debug)]
pub enum Capture {
    /// The order is read next
    Order,
    /// The balance that the order pays from is read next
    InputBalance { order: Order },
    /// The balance that the order receives to is read next
    OutputBalance { order: Order, input_balance: Option<Balance> },
    /// The local state has been read
    Captured { state: PartyLocalState },
}

/// Whether a local state is one that a party of a task can have: only in the
/// darkpool is an output balance locally managed.
pub open spec fn is_local_state_of(
    state: PartyLocalState,
    task: SettleInternalMatchTask,
    party: PartyId,
) -> bool {
    &&& state.account_id == task.account_of(party)
    &&& state.order_id == task.order_of(party)
    &&& state.order.ring.spec_balance_location() == BalanceLocation::EOA
        ==> state.output_balance is None
}

impl Capture {
    /// Whether this is a point that a capture can come to before its end: only in the
    /// darkpool is an output balance read.
    pub open spec fn well_formed(self) -> bool {
        match self {
            Capture::OutputBalance { order, .. } => order.ring.spec_balance_location()
                == BalanceLocation::Darkpool,
            Capture::Captured { .. } => false,
            _ => true,
        }
    }

    /// The call to make next for a party of a task, of no meaning once the local state
    /// has been read.
    pub open spec fn next_action(self, task: SettleInternalMatchTask, party: PartyId) -> Action {
        match self {
            Capture::InputBalance { order } => Action::ReadBalance {
                account_id: task.account_of(party),
                token: order.input_token,
                location: order.ring.spec_balance_location(),
            },
            Capture::OutputBalance { order, .. } => Action::ReadBalance {
                account_id: task.account_of(party),
                token: order.output_token,
                location: order.ring.spec_balance_location(),
            },
            _ => Action::ReadOrder { order_id: task.order_of(party) },
        }
    }

    /// How far the local state has been read once a reply has come in. Only a
    /// balance in the darkpool has an output side that is locally managed.
    pub open spec fn after_reply(
        self,
        task: SettleInternalMatchTask,
        party: PartyId,
        reply: Reply,
    ) -> Capture {
        match (self, reply) {
            (Capture::Order, Reply::Order(order)) => Capture::InputBalance { order },
            (Capture::InputBalance { order }, Reply::StoredBalance(input_balance)) => {
                if order.ring.spec_balance_location() == BalanceLocation::EOA {
                    Capture::Captured {
                        state: PartyLocalState {
                            account_id: task.account_of(party),
                            order_id: task.order_of(party),
                            order,
                            input_balance,
                            output_balance: None,
                        },
                    }
                } else {
                    Capture::OutputBalance { order, input_balance }
                }
            },
            (
                Capture::OutputBalance { order, input_balance },
                Reply::StoredBalance(output_balance),
            ) => Capture::Captured {
                state: PartyLocalState {
                    account_id: task.account_of(party),
                    order_id: task.order_of(party),
                    order,
                    input_balance,
                    output_balance,
                },
            },
            _ => self,
        }
    }

    /// The call to make next for a party of a task.
    pub fn action(&self, task: &SettleInternalMatchTask, party: PartyId) -> (res: Action)
        ensures
            res == self.next_action(*task, party),
    {
        match self {
            Capture::InputBalance { order } => Action::ReadBalance {
                account_id: task.party_account(party),
                token: order.input_token.clone(),
                location: order.ring.balance_location(),
            },
            Capture::OutputBalance { order, .. } => Action::ReadBalance {
                account_id: task.party_account(party),
                token: order.output_token.clone(),
                location: order.ring.balance_location(),
            },
            _ => Action::ReadOrder { order_id: task.party_order(party) },
        }
    }

    /// Takes in the reply to the last call.
    pub fn capture_party_state(
        self,
        task: &SettleInternalMatchTask,
        party: PartyId,
        reply: Reply,
    ) -> (res: Capture)
        requires
            !(self is Captured),
            self.next_action(*task, party).answered_by(reply),
        ensures
            res == self.after_reply(*task, party, reply),
    {
        match (self, reply) {
            (Capture::Order, Reply::Order(order)) => Capture::InputBalance { order },
            (Capture::InputBalance { order }, Reply::StoredBalance(input_balance)) => {
                match order.ring.balance_location() {
                    BalanceLocation::EOA => Capture::Captured {
                        state: PartyLocalState {
                            account_id: task.party_account(party),
                            order_id: task.party_order(party),
                            order,
                            input_balance,
                            output_balance: None,
                        },
                    },
                    BalanceLocation::Darkpool => Capture::OutputBalance { order, input_balance },
                }
            },
            (
                Capture::OutputBalance { order, input_balance },
                Reply::StoredBalance(output_balance),
            ) => Capture::Captured {
                state: PartyLocalState {
                    account_id: task.party_account(party),
                    order_id: task.party_order(party),
                    order,
                    input_balance,
                    output_balance,
                },
            },
            (capture, _) => capture,
        }
    }
}

} // verus!
