//! The local leg of a settlement: a transition is applied by comparison, never by
//! blind replay.
use vstd::prelude::*;

use crate::account::{Balance, BalanceLocation};
use crate::settlement::capture::Capture;
use crate::settlement::error::{
    refuse_unexpected_local_state, unexpected_local_state, SettleInternalMatchTaskError,
    SettleInternalMatchTaskErrorView,
};
use crate::settlement::party::{
    PartyId, PartyLocalState, PartyLocalStateView, PartyStateTransition, PartyStateTransitionView,
};
use crate::settlement::service::{Action, Reply};
use crate::settlement::task::SettleInternalMatchTask;

verus! {

/// How a local state stands to a transition.
#[derive(Clone, Copy, Debug, PartialEq, Eq, Structural)]
pub enum LocalProgress {
    /// The transition has been applied
    AlreadyApplied,
    /// The transition starts from the local state
    NotApplied,
    /// The local state is neither, and nothing is to be guessed
    Unexpected,
}

/// How far the local leg of one party has come.
#[derive(Debug)]
pub enum PartyUpdate {
    /// The local state is being read
    Capturing { transition: PartyStateTransition, capture: Capture },
    /// The balances are being written
    WritingBalances { transition: PartyStateTransition },
    /// The order is being written
    WritingOrder { transition: PartyStateTransition },
    /// The transition is applied
    Applied,
}

/// How a local state stands to a transition. A state that the transition both
/// starts from and leads to counts as one to which it has been applied.
pub open spec fn progress_of(
    transition: PartyStateTransitionView,
    current: PartyLocalStateView,
) -> LocalProgress {
    if current == transition.after() {
        LocalProgress::AlreadyApplied
    } else if current == transition.before() {
        LocalProgress::NotApplied
    } else {
        LocalProgress::Unexpected
    }
}

/// How a local state stands to a transition.
pub fn classify(transition: &PartyStateTransition, current: &PartyLocalState) -> (res:
    LocalProgress)
    ensures
        res == progress_of(transition@, current@),
{
    if *current == PartyLocalState::from_after(transition) {
        return LocalProgress::AlreadyApplied;
    }
    if *current != PartyLocalState::from_before(transition) {
        return LocalProgress::Unexpected;
    }
    LocalProgress::NotApplied
}

/// The balances that a transition leads to, where it knows both.
pub open spec fn updated_balances(transition: PartyStateTransition) -> Option<(Balance, Balance)> {
    match (transition.input_balance_after, transition.output_balance_after) {
        (Some(input_balance), Some(output_balance)) => Some((input_balance, output_balance)),
        _ => None,
    }
}

/// The EOA balance that a transition leads to, where it is one of an EOA order.
pub open spec fn updated_eoa_balance(transition: PartyStateTransition) -> Option<Balance> {
    if transition.order_after.ring.spec_balance_location() == BalanceLocation::EOA {
        transition.input_balance_after
    } else {
        None
    }
}

impl PartyUpdate {
    /// Whether a call is still to be made.
    pub open spec fn well_formed(self) -> bool {
        self matches PartyUpdate::Capturing { capture, .. } ==> !(capture is Captured)
    }

    /// The call to make next for a party of a task, of no meaning once the transition is
    /// applied.
    pub open spec fn next_action(self, task: SettleInternalMatchTask, party: PartyId) -> Action {
        match self {
            PartyUpdate::Capturing { capture, .. } => capture.next_action(task, party),
            PartyUpdate::WritingBalances { transition } => Action::WriteBalances {
                account_id: task.account_of(party),
                order: transition.order_after,
                obligation: task.obligation_of(party),
                balances: updated_balances(transition),
                eoa_balance: updated_eoa_balance(transition),
            },
            PartyUpdate::WritingOrder { transition } => Action::WriteOrder {
                order: transition.order_after,
            },
            PartyUpdate::Applied => Action::ReadOrder { order_id: task.order_of(party) },
        }
    }

    /// How far the local leg comes when the next call is answered, or the error
    /// with which it ends.
    pub open spec fn after_reply(
        self,
        task: SettleInternalMatchTask,
        party: PartyId,
        reply: Result<Reply, SettleInternalMatchTaskError>,
    ) -> Result<PartyUpdate, SettleInternalMatchTaskErrorView> {
        match (self, reply) {
            (_, Err(error)) => Err(error@),
            (PartyUpdate::Capturing { transition, capture }, Ok(reply)) => {
                match capture.after_reply(task, party, reply) {
                    Capture::Captured { state } => match progress_of(transition@, state@) {
                        LocalProgress::AlreadyApplied => Ok(PartyUpdate::Applied),
                        LocalProgress::NotApplied => Ok(PartyUpdate::WritingBalances { transition }),
                        LocalProgress::Unexpected => Err(
                            unexpected_local_state(transition.order_id),
                        ),
                    },
                    capture => Ok(PartyUpdate::Capturing { transition, capture }),
                }
            },
            (PartyUpdate::WritingBalances { transition }, Ok(_)) => {
                Ok(PartyUpdate::WritingOrder { transition })
            },
            (PartyUpdate::WritingOrder { .. }, Ok(_)) => Ok(PartyUpdate::Applied),
            (PartyUpdate::Applied, Ok(_)) => Ok(PartyUpdate::Applied),
        }
    }

    /// The beginning of the local leg of a party.
    pub fn start(transition: PartyStateTransition) -> (res: PartyUpdate)
        ensures
            res == (PartyUpdate::Capturing { transition, capture: Capture::Order }),
            res.well_formed(),
    {
        PartyUpdate::Capturing { transition, capture: Capture::Order }
    }

    /// The call to make next for a party of a task.
    pub fn action(&self, task: &SettleInternalMatchTask, party: PartyId) -> (res: Action)
        requires
            self.well_formed(),
            !(self is Applied),
        ensures
            res == self.next_action(*task, party),
    {
        match self {
            PartyUpdate::Capturing { capture, .. } => capture.action(task, party),
            PartyUpdate::WritingBalances { transition } => {
                let balances = match (
                    &transition.input_balance_after,
                    &transition.output_balance_after,
                ) {
                    (Some(input_balance), Some(output_balance)) => Some(
                        (input_balance.clone(), output_balance.clone()),
                    ),
                    _ => None,
                };
                let eoa_balance = match transition.order_after.ring.balance_location() {
                    BalanceLocation::EOA => transition.input_balance_after.clone(),
                    BalanceLocation::Darkpool => None,
                };
                Action::WriteBalances {
                    account_id: task.party_account(party),
                    order: transition.order_after.clone(),
                    obligation: task.get_obligation(party).clone(),
                    balances,
                    eoa_balance,
                }
            },
            PartyUpdate::WritingOrder { transition } => Action::WriteOrder {
                order: transition.order_after.clone(),
            },
            PartyUpdate::Applied => Action::ReadOrder { order_id: task.party_order(party) },
        }
    }

    /// Update the state for a given party: takes in the reply to the last call.
    pub fn update_state_for_party(
        self,
        task: &SettleInternalMatchTask,
        party: PartyId,
        reply: Result<Reply, SettleInternalMatchTaskError>,
    ) -> (res: Result<PartyUpdate, SettleInternalMatchTaskError>)
        requires
            self.well_formed(),
            !(self is Applied),
            reply is Ok ==> self.next_action(*task, party).answered_by(reply->Ok_0),
        ensures
            match (res, self.after_reply(*task, party, reply)) {
                (Ok(update), Ok(expected)) => update == expected && update.well_formed(),
                (Err(error), Err(expected)) => error@ == expected,
                _ => false,
            },
    {
        let reply = match reply {
            Ok(reply) => reply,
            Err(error) => {
                return Err(error);
            },
        };
        match self {
            PartyUpdate::Capturing { transition, capture } => {
                match capture.capture_party_state(task, party, reply) {
                    Capture::Captured { state } => match classify(&transition, &state) {
                        LocalProgress::AlreadyApplied => Ok(PartyUpdate::Applied),
                        LocalProgress::NotApplied => Ok(PartyUpdate::WritingBalances { transition }),
                        LocalProgress::Unexpected => Err(
                            refuse_unexpected_local_state(transition.order_id),
                        ),
                    },
                    capture => Ok(PartyUpdate::Capturing { transition, capture }),
                }
            },
            PartyUpdate::WritingBalances { transition } => {
                Ok(PartyUpdate::WritingOrder { transition })
            },
            PartyUpdate::WritingOrder { .. } => Ok(PartyUpdate::Applied),
            PartyUpdate::Applied => Ok(PartyUpdate::Applied),
        }
    }
}

} // verus!
