//! The task that settles an internal match.
use vstd::prelude::*;

use crate::account::{Balance, Order, PrivacyRing};
use crate::hooks::TaskHook;
use crate::ids::{AccountId, OrderId};
use crate::settlement::error::{
    missing_updated_order, refuse_missing_updated_order, SettleInternalMatchTaskError,
    SettleInternalMatchTaskErrorView,
};
use crate::settlement::party::{
    MatchResult, PartyId, PartyLocalState, PartyStateTransition, SettlementObligation,
};
use crate::settlement::service::{BalanceProofs, ReceiptProofs};
use crate::settlement::state::SettleInternalMatchTaskState;
use crate::traits::Task;

verus! {

/// A price and the time at which it was sampled.
#[derive(Debug)]
pub struct TimestampedPrice {
    /// The price, a fixed-point number as text
    pub price: String,
    /// The time, in milliseconds
    pub timestamp: u64,
}

/// What a settle internal match task is made from.
#[derive(Debug)]
pub struct SettleInternalMatchTaskDescriptor {
    /// The account of the initiating order
    pub account_id: AccountId,
    /// The account of the counterparty order
    pub other_account_id: AccountId,
    /// The initiating order
    pub order_id: OrderId,
    /// The counterparty order
    pub other_order_id: OrderId,
    /// The price at which the match was executed
    pub execution_price: TimestampedPrice,
    /// The match result
    pub match_result: MatchResult,
}

impl SettleInternalMatchTaskDescriptor {
    /// Refresh both accounts of a settlement that is refused before there is a task for it
    pub fn failure_hooks(&self) -> (res: Vec<TaskHook>)
        ensures
            res@.len() == 1,
            res@[0] matches TaskHook::RefreshAccount { account_ids } && account_ids@ == seq![
                self.account_id,
                self.other_account_id,
            ],
    {
        vec![
            TaskHook::RefreshAccount { account_ids: vec![self.account_id, self.other_account_id] },
        ]
    }
}

/// A task to settle an internal match.
#[derive(Debug)]
pub struct SettleInternalMatchTask {
    /// The account ID for the initiating order
    pub account_id: AccountId,
    /// The account ID for the counterparty order
    pub other_account_id: AccountId,
    /// The ID of the initiating order
    pub order_id: OrderId,
    /// The ID of the counterparty order
    pub other_order_id: OrderId,
    /// The price at which the match was executed
    pub execution_price: TimestampedPrice,
    /// The match result
    pub match_result: MatchResult,
    /// The initiating order after settlement-derived intent updates
    pub updated_order0: Option<Order>,
    /// The counterparty order after settlement-derived intent updates
    pub updated_order1: Option<Order>,
    /// The updated input balance for party 0, where it is locally managed
    pub updated_input_balance0: Option<Balance>,
    /// The updated input balance for party 1, where it is locally managed
    pub updated_input_balance1: Option<Balance>,
    /// The updated output balance for party 0 (Ring 2+ only)
    pub updated_output_balance0: Option<Balance>,
    /// The updated output balance for party 1 (Ring 2+ only)
    pub updated_output_balance1: Option<Balance>,
    /// The state of the task's execution
    pub task_state: SettleInternalMatchTaskState,
    /// Whether the task resumes from persisted queue state
    pub restored_from_queue: bool,
}

impl Clone for TimestampedPrice {
    fn clone(&self) -> (res: Self)
        ensures
            res == *self,
    {
        TimestampedPrice { price: self.price.clone(), timestamp: self.timestamp }
    }
}

impl Clone for SettleInternalMatchTaskDescriptor {
    fn clone(&self) -> (res: Self)
        ensures
            res == *self,
    {
        SettleInternalMatchTaskDescriptor {
            account_id: self.account_id,
            other_account_id: self.other_account_id,
            order_id: self.order_id,
            other_order_id: self.other_order_id,
            execution_price: self.execution_price.clone(),
            match_result: self.match_result.clone(),
        }
    }
}

impl Clone for SettleInternalMatchTask {
    fn clone(&self) -> (res: Self)
        ensures
            res == *self,
    {
        SettleInternalMatchTask {
            account_id: self.account_id,
            other_account_id: self.other_account_id,
            order_id: self.order_id,
            other_order_id: self.other_order_id,
            execution_price: self.execution_price.clone(),
            match_result: self.match_result.clone(),
            updated_order0: self.updated_order0.clone(),
            updated_order1: self.updated_order1.clone(),
            updated_input_balance0: self.updated_input_balance0.clone(),
            updated_input_balance1: self.updated_input_balance1.clone(),
            updated_output_balance0: self.updated_output_balance0.clone(),
            updated_output_balance1: self.updated_output_balance1.clone(),
            task_state: self.task_state.clone(),
            restored_from_queue: self.restored_from_queue,
        }
    }
}

impl Task for SettleInternalMatchTask {
    type State = SettleInternalMatchTaskState;

    type Error = SettleInternalMatchTaskError;

    type Descriptor = SettleInternalMatchTaskDescriptor;

    open spec fn spec_new(descriptor: SettleInternalMatchTaskDescriptor) -> Result<
        Self,
        SettleInternalMatchTaskError,
    > {
        Ok(
            SettleInternalMatchTask {
                account_id: descriptor.account_id,
                other_account_id: descriptor.other_account_id,
                order_id: descriptor.order_id,
                other_order_id: descriptor.other_order_id,
                execution_price: descriptor.execution_price,
                match_result: descriptor.match_result,
                updated_order0: None,
                updated_order1: None,
                updated_input_balance0: None,
                updated_input_balance1: None,
                updated_output_balance0: None,
                updated_output_balance1: None,
                task_state: SettleInternalMatchTaskState::Pending,
                restored_from_queue: false,
            },
        )
    }

    open spec fn spec_restored(self, state: SettleInternalMatchTaskState) -> Self {
        match state {
            SettleInternalMatchTaskState::SubmittingTxPlanned { party0, party1 }
            | SettleInternalMatchTaskState::UpdatingState { party0, party1 } => {
                SettleInternalMatchTask {
                    updated_order0: Some(party0.order_after),
                    updated_order1: Some(party1.order_after),
                    updated_input_balance0: party0.input_balance_after,
                    updated_input_balance1: party1.input_balance_after,
                    updated_output_balance0: party0.output_balance_after,
                    updated_output_balance1: party1.output_balance_after,
                    task_state: state,
                    restored_from_queue: true,
                    ..self
                }
            },
            _ => SettleInternalMatchTask { task_state: state, restored_from_queue: true, ..self },
        }
    }

    open spec fn spec_task_state(self) -> SettleInternalMatchTaskState {
        self.task_state
    }

    open spec fn spec_name(self) -> Seq<char> {
        "settle-internal-match"@
    }

    open spec fn spec_bypass_task_queue(self) -> bool {
        false
    }

    fn new(descriptor: SettleInternalMatchTaskDescriptor) -> (res: Result<
        Self,
        SettleInternalMatchTaskError,
    >) {
        Ok(
            SettleInternalMatchTask {
                account_id: descriptor.account_id,
                other_account_id: descriptor.other_account_id,
                order_id: descriptor.order_id,
                other_order_id: descriptor.other_order_id,
                execution_price: descriptor.execution_price,
                match_result: descriptor.match_result,
                updated_order0: None,
                updated_order1: None,
                updated_input_balance0: None,
                updated_input_balance1: None,
                updated_output_balance0: None,
                updated_output_balance1: None,
                task_state: SettleInternalMatchTaskState::Pending,
                restored_from_queue: false,
            },
        )
    }

    fn restore_state(&mut self, state: SettleInternalMatchTaskState) {
        self.restored_from_queue = true;
        if let SettleInternalMatchTaskState::SubmittingTxPlanned { party0, party1 }
        | SettleInternalMatchTaskState::UpdatingState { party0, party1 } = &state {
            self.updated_order0 = Some(party0.order_after.clone());
            self.updated_order1 = Some(party1.order_after.clone());
            self.updated_input_balance0 = party0.input_balance_after.clone();
            self.updated_input_balance1 = party1.input_balance_after.clone();
            self.updated_output_balance0 = party0.output_balance_after.clone();
            self.updated_output_balance1 = party1.output_balance_after.clone();
        }
        self.task_state = state;
    }

    fn task_state(&self) -> (res: SettleInternalMatchTaskState) {
        self.task_state.clone()
    }

    fn name(&self) -> (res: String) {
        "settle-internal-match".to_owned()
    }

    fn bypass_task_queue(&self) -> (res: bool) {
        false
    }
}

impl SettleInternalMatchTask {
    /// The account of a party.
    pub open spec fn account_of(self, party: PartyId) -> AccountId {
        match party {
            PartyId::Party0 => self.account_id,
            PartyId::Party1 => self.other_account_id,
        }
    }

    /// The order of a party.
    pub open spec fn order_of(self, party: PartyId) -> OrderId {
        match party {
            PartyId::Party0 => self.order_id,
            PartyId::Party1 => self.other_order_id,
        }
    }

    /// What a party owes and receives.
    pub open spec fn obligation_of(self, party: PartyId) -> SettlementObligation {
        match party {
            PartyId::Party0 => self.match_result.party0_obligation,
            PartyId::Party1 => self.match_result.party1_obligation,
        }
    }

    /// The order of a party after the settlement, once it is known.
    pub open spec fn updated_order_of(self, party: PartyId) -> Option<Order> {
        match party {
            PartyId::Party0 => self.updated_order0,
            PartyId::Party1 => self.updated_order1,
        }
    }

    /// The input balance of a party after the settlement, once it is known.
    pub open spec fn updated_input_of(self, party: PartyId) -> Option<Balance> {
        match party {
            PartyId::Party0 => self.updated_input_balance0,
            PartyId::Party1 => self.updated_input_balance1,
        }
    }

    /// The output balance of a party after the settlement, once it is known.
    pub open spec fn updated_output_of(self, party: PartyId) -> Option<Balance> {
        match party {
            PartyId::Party0 => self.updated_output_balance0,
            PartyId::Party1 => self.updated_output_balance1,
        }
    }

    /// The task with the balances of a party after the settlement.
    pub open spec fn with_balances(
        self,
        party: PartyId,
        input_balance: Balance,
        output_balance: Balance,
    ) -> Self {
        match party {
            PartyId::Party0 => SettleInternalMatchTask {
                updated_input_balance0: Some(input_balance),
                updated_output_balance0: Some(output_balance),
                ..self
            },
            PartyId::Party1 => SettleInternalMatchTask {
                updated_input_balance1: Some(input_balance),
                updated_output_balance1: Some(output_balance),
                ..self
            },
        }
    }

    /// The task with the input balance of a party after the settlement.
    pub open spec fn with_input_balance(self, party: PartyId, input_balance: Balance) -> Self {
        match party {
            PartyId::Party0 => SettleInternalMatchTask {
                updated_input_balance0: Some(input_balance),
                ..self
            },
            PartyId::Party1 => SettleInternalMatchTask {
                updated_input_balance1: Some(input_balance),
                ..self
            },
        }
    }

    /// Whether the order of a party after the settlement is known, and with it,
    /// where they stand in the darkpool, the party's balances.
    pub open spec fn knows_update_of(self, party: PartyId) -> bool {
        match self.updated_order_of(party) {
            Some(order) => order.ring == PrivacyRing::Ring2 ==> self.updated_input_of(
                party,
            ) is Some && self.updated_output_of(party) is Some,
            None => false,
        }
    }

    /// The account of a party.
    pub(crate) fn party_account(&self, party: PartyId) -> (res: AccountId)
        ensures
            res == self.account_of(party),
    {
        match party {
            PartyId::Party0 => self.account_id,
            PartyId::Party1 => self.other_account_id,
        }
    }

    /// The order of a party.
    pub(crate) fn party_order(&self, party: PartyId) -> (res: OrderId)
        ensures
            res == self.order_of(party),
    {
        match party {
            PartyId::Party0 => self.order_id,
            PartyId::Party1 => self.other_order_id,
        }
    }

    /// Get the obligation for a given party
    pub fn get_obligation(&self, party: PartyId) -> (res: &SettlementObligation)
        ensures
            *res == self.obligation_of(party),
    {
        match party {
            PartyId::Party0 => &self.match_result.party0_obligation,
            PartyId::Party1 => &self.match_result.party1_obligation,
        }
    }

    /// The order of a party after the settlement, once it is known.
    pub(crate) fn updated_order(&self, party: PartyId) -> (res: &Option<Order>)
        ensures
            *res == self.updated_order_of(party),
    {
        match party {
            PartyId::Party0 => &self.updated_order0,
            PartyId::Party1 => &self.updated_order1,
        }
    }

    /// The input balance of a party after the settlement, once it is known.
    pub(crate) fn updated_input_balance(&self, party: PartyId) -> (res: &Option<Balance>)
        ensures
            *res == self.updated_input_of(party),
    {
        match party {
            PartyId::Party0 => &self.updated_input_balance0,
            PartyId::Party1 => &self.updated_input_balance1,
        }
    }

    /// The output balance of a party after the settlement, once it is known.
    pub(crate) fn updated_output_balance(&self, party: PartyId) -> (res: &Option<Balance>)
        ensures
            *res == self.updated_output_of(party),
    {
        match party {
            PartyId::Party0 => &self.updated_output_balance0,
            PartyId::Party1 => &self.updated_output_balance1,
        }
    }

    /// Takes note of the balances of a party after the settlement.
    pub(crate) fn set_balances(
        &mut self,
        party: PartyId,
        input_balance: Balance,
        output_balance: Balance,
    )
        ensures
            *final(self) == old(self).with_balances(party, input_balance, output_balance),
    {
        match party {
            PartyId::Party0 => {
                self.updated_input_balance0 = Some(input_balance);
                self.updated_output_balance0 = Some(output_balance);
            },
            PartyId::Party1 => {
                self.updated_input_balance1 = Some(input_balance);
                self.updated_output_balance1 = Some(output_balance);
            },
        }
    }

    /// Takes note of the input balance of a party after the settlement.
    pub(crate) fn set_input_balance(&mut self, party: PartyId, input_balance: Balance)
        ensures
            *final(self) == old(self).with_input_balance(party, input_balance),
    {
        match party {
            PartyId::Party0 => {
                self.updated_input_balance0 = Some(input_balance);
            },
            PartyId::Party1 => {
                self.updated_input_balance1 = Some(input_balance);
            },
        }
    }

    /// The transition of a party from its state before the settlement to what is
    /// known of it after.
    pub open spec fn transition_of(self, party: PartyId, before: PartyLocalState) -> Result<
        PartyStateTransition,
        SettleInternalMatchTaskErrorView,
    > {
        match self.updated_order_of(party) {
            Some(order_after) => Ok(
                PartyStateTransition {
                    account_id: before.account_id,
                    order_id: before.order_id,
                    order_before: before.order,
                    order_after,
                    input_balance_before: before.input_balance,
                    input_balance_after: self.updated_input_of(party),
                    output_balance_before: before.output_balance,
                    output_balance_after: self.updated_output_of(party),
                },
            ),
            None => Err(missing_updated_order()),
        }
    }

    /// Build a persisted before/after transition for one party.
    pub fn build_state_transition(&self, party: PartyId, before: PartyLocalState) -> (res: Result<
        PartyStateTransition,
        SettleInternalMatchTaskError,
    >)
        ensures
            match (res, self.transition_of(party, before)) {
                (Ok(transition), Ok(expected)) => transition == expected,
                (Err(error), Err(expected)) => error@ == expected,
                _ => false,
            },
    {
        match self.updated_order(party) {
            Some(order_after) => Ok(
                PartyStateTransition {
                    account_id: before.account_id,
                    order_id: before.order_id,
                    order_before: before.order,
                    order_after: order_after.clone(),
                    input_balance_before: before.input_balance,
                    input_balance_after: self.updated_input_balance(party).clone(),
                    output_balance_before: before.output_balance,
                    output_balance_after: self.updated_output_balance(party).clone(),
                },
            ),
            None => Err(refuse_missing_updated_order()),
        }
    }

    /// The Merkle proofs to take for a party from the receipt of the settlement.
    pub open spec fn receipt_proofs_of(self, party: PartyId) -> ReceiptProofs {
        let order = self.updated_order_of(party)->0;
        ReceiptProofs {
            order,
            balances: if order.ring == PrivacyRing::Ring2 {
                Some(
                    BalanceProofs {
                        account_id: self.account_of(party),
                        input_balance: self.updated_input_of(party)->0,
                        output_balance: self.updated_output_of(party)->0,
                    },
                )
            } else {
                None
            },
        }
    }

    /// The Merkle proofs to take from the settlement receipt for a single party's
    /// order and, for Ring 2 parties, for both the input and the output balance
    pub fn update_merkle_proof_for_party(&self, party: PartyId) -> (res: ReceiptProofs)
        requires
            self.knows_update_of(party),
        ensures
            res == self.receipt_proofs_of(party),
    {
        let order = self.updated_order(party).as_ref().unwrap();
        let balances = if order.ring != PrivacyRing::Ring2 {
            None
        } else {
            Some(self.update_ring2_balance_merkle_proofs_after_match(party))
        };
        ReceiptProofs { order: order.clone(), balances }
    }

    /// The balances of a ring 2 party whose Merkle proofs are to be updated
    fn update_ring2_balance_merkle_proofs_after_match(&self, party: PartyId) -> (res: BalanceProofs)
        requires
            self.updated_input_of(party) is Some,
            self.updated_output_of(party) is Some,
        ensures
            res == (BalanceProofs {
                account_id: self.account_of(party),
                input_balance: self.updated_input_of(party)->0,
                output_balance: self.updated_output_of(party)->0,
            }),
    {
        BalanceProofs {
            account_id: self.party_account(party),
            input_balance: self.updated_input_balance(party).as_ref().unwrap().clone(),
            output_balance: self.updated_output_balance(party).as_ref().unwrap().clone(),
        }
    }

    /// Re-run the matching engine on both orders for recursive fills
    pub fn success_hooks(&self) -> (res: Vec<TaskHook>)
        ensures
            res@.len() == 2,
            res@[0] matches TaskHook::RunMatchingEngine { account_id, order_ids } && account_id
                == self.account_id && order_ids@ == seq![self.order_id],
            res@[1] matches TaskHook::RunMatchingEngine { account_id, order_ids } && account_id
                == self.other_account_id && order_ids@ == seq![self.other_order_id],
    {
        vec![
            TaskHook::RunMatchingEngine {
                account_id: self.account_id,
                order_ids: vec![self.order_id],
            },
            TaskHook::RunMatchingEngine {
                account_id: self.other_account_id,
                order_ids: vec![self.other_order_id],
            },
        ]
    }

    /// Refresh both accounts after a failure
    pub fn failure_hooks(&self) -> (res: Vec<TaskHook>)
        ensures
            res@.len() == 1,
            res@[0] matches TaskHook::RefreshAccount { account_ids } && account_ids@ == seq![
                self.account_id,
                self.other_account_id,
            ],
    {
        vec![
            TaskHook::RefreshAccount { account_ids: vec![self.account_id, self.other_account_id] },
        ]
    }
}

} // verus!
