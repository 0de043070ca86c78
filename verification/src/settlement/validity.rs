//! Regenerating the validity proofs of the orders that a match changed.
use vstd::prelude::*;

use crate::account::PrivacyRing;
use crate::settlement::error::{SettleInternalMatchTaskError, SettleInternalMatchTaskErrorView};
use crate::settlement::party::PartyId;
use crate::settlement::service::{Action, Reply, SettledAuth};
use crate::settlement::task::SettleInternalMatchTask;

verus! {

/// How far the validity proofs of one party have come.
///
/// Ring 1 orders use `INTENT ONLY VALIDITY`. Ring 2 orders use both
/// `INTENT AND BALANCE VALIDITY` and `OUTPUT BALANCE VALIDITY`.
#[derive(Debug)]
pub enum ValidityUpdate {
    /// The order is being read
    ReadingOrder,
    /// The validity of the intent alone is being proven
    ProvingIntent,
    /// The signatures that authorize the proofs are being read
    ReadingAuth,
    /// The validity of the intent and the input balance is being proven
    ProvingIntentAndBalance { auth: SettledAuth },
    /// The validity of the output balance is being proven
    ProvingOutputBalance { auth: SettledAuth },
    /// The proofs are up to date
    Proven,
}

impl ValidityUpdate {
    /// The call to make next for a party of a task, of no meaning once the proofs are up
    /// to date.
    pub open spec fn next_action(self, task: SettleInternalMatchTask, party: PartyId) -> Action {
        let order_id = task.order_of(party);
        let account_id = task.account_of(party);
        match self {
            ValidityUpdate::ReadingOrder | ValidityUpdate::Proven => Action::ReadOrder { order_id },
            ValidityUpdate::ProvingIntent => Action::ProveIntentOnly { order_id },
            ValidityUpdate::ReadingAuth => Action::ReadSettledAuth { order_id },
            ValidityUpdate::ProvingIntentAndBalance { auth } => Action::ProveIntentAndBalance {
                account_id,
                order_id,
                signature: auth.intent_signature,
            },
            ValidityUpdate::ProvingOutputBalance { auth } => Action::ProveOutputBalance {
                account_id,
                order_id,
                signature: auth.output_balance_signature,
                force: false,
            },
        }
    }

    /// How far the proofs come when the next call is answered, or the error with
    /// which they end.
    pub open spec fn after_reply(
        self,
        reply: Result<Reply, SettleInternalMatchTaskError>,
    ) -> Result<ValidityUpdate, SettleInternalMatchTaskErrorView> {
        match (self, reply) {
            (_, Err(error)) => Err(error@),
            (ValidityUpdate::ReadingOrder, Ok(Reply::Order(order))) => Ok(
                match order.ring {
                    PrivacyRing::Ring0 => ValidityUpdate::Proven,
                    PrivacyRing::Ring1 => ValidityUpdate::ProvingIntent,
                    _ => ValidityUpdate::ReadingAuth,
                },
            ),
            (ValidityUpdate::ReadingAuth, Ok(Reply::Auth(auth))) => Ok(
                ValidityUpdate::ProvingIntentAndBalance { auth },
            ),
            (ValidityUpdate::ProvingIntentAndBalance { auth }, Ok(_)) => Ok(
                ValidityUpdate::ProvingOutputBalance { auth },
            ),
            _ => Ok(ValidityUpdate::Proven),
        }
    }

    /// The beginning of a party's proofs.
    pub fn start() -> (res: ValidityUpdate)
        ensures
            res == ValidityUpdate::ReadingOrder,
    {
        ValidityUpdate::ReadingOrder
    }

    /// The call to make next for a party of a task.
    pub fn action(&self, task: &SettleInternalMatchTask, party: PartyId) -> (res: Action)
        requires
            !(self is Proven),
        ensures
            res == self.next_action(*task, party),
    {
        let order_id: u128 = task.party_order(party);
        let account_id: u128 = task.party_account(party);
        match self {
            ValidityUpdate::ReadingOrder | ValidityUpdate::Proven => Action::ReadOrder { order_id },
            ValidityUpdate::ProvingIntent => Action::ProveIntentOnly { order_id },
            ValidityUpdate::ReadingAuth => Action::ReadSettledAuth { order_id },
            ValidityUpdate::ProvingIntentAndBalance { auth } => Action::ProveIntentAndBalance {
                account_id,
                order_id,
                signature: auth.intent_signature.clone(),
            },
            ValidityUpdate::ProvingOutputBalance { auth } => Action::ProveOutputBalance {
                account_id,
                order_id,
                signature: auth.output_balance_signature.clone(),
                force: false,
            },
        }
    }

    /// Regenerate the validity proof for a single party's order if it is a private
    /// (Ring 1+) order: takes in the reply to the last call. There are no proofs for
    /// an order of the third ring.
    pub fn update_validity_proofs_for_party(
        self,
        task: &SettleInternalMatchTask,
        party: PartyId,
        reply: Result<Reply, SettleInternalMatchTaskError>,
    ) -> (res: Result<ValidityUpdate, SettleInternalMatchTaskError>)
        requires
            !(self is Proven),
            reply is Ok ==> self.next_action(*task, party).answered_by(reply->Ok_0),
            (self is ReadingOrder && reply is Ok) ==> reply->Ok_0->Order_0.ring
                != PrivacyRing::Ring3,
        ensures
            match (res, self.after_reply(reply)) {
                (Ok(update), Ok(expected)) => update == expected,
                (Err(error), Err(expected)) => error@ == expected,
                _ => false,
            },
    {
        let reply = match reply {
            Ok(reply) => reply,
            Err(error) => {
                return Err(error);
            },
        };
        match (self, reply) {
            (ValidityUpdate::ReadingOrder, Reply::Order(order)) => match order.ring {
                PrivacyRing::Ring0 => Ok(ValidityUpdate::Proven),
                PrivacyRing::Ring1 => Ok(ValidityUpdate::ProvingIntent),
                _ => Ok(ValidityUpdate::ReadingAuth),
            },
            (ValidityUpdate::ReadingAuth, Reply::Auth(auth)) => Ok(
                ValidityUpdate::ProvingIntentAndBalance { auth },
            ),
            (ValidityUpdate::ProvingIntentAndBalance { auth }, _) => Ok(
                ValidityUpdate::ProvingOutputBalance { auth },
            ),
            _ => Ok(ValidityUpdate::Proven),
        }
    }
}

} // verus!
