//! Recovering a settlement whose match may have been submitted.
use vstd::prelude::*;

use crate::settlement::error::{refuse_not_finalized, SettleInternalMatchTaskError};
use crate::settlement::laws::{
    calls, committed_on_chain, found_on_chain,
    law_proofs_are_synced_only_when_proven, law_recovery_is_proven, law_recovery_never_submits,
    law_run_keeps_invariant, reached, Replies,
};
use crate::settlement::party::PartyId;
use crate::settlement::service::Action;
use crate::settlement::state::SettleInternalMatchTaskState;
use crate::settlement::submission::{
    knows_committed_balances, same_outcome, start_first_leg, Submission, Transitions,
};
use crate::settlement::task::SettleInternalMatchTask;

verus! {

impl SettleInternalMatchTask {
    /// Recover a committed settlement task without re-submitting the transaction, from
    /// the transitions that it persisted before the submission.
    ///
    /// This path only proceeds when the chain can prove the first leg finalized: however
    /// the services answer, it ends well only with the persisted transitions, once the
    /// chain has shown all that they commit to for both parties. Of a fully public order
    /// the chain has nothing to show, so a match with one is refused. A recovery looks
    /// commitments up, and stores Merkle proofs once both legs are proven; it makes no
    /// other call.
    pub fn recover_submitted_match(&self) -> (res: Result<Submission, SettleInternalMatchTaskError>)
        requires
            self.task_state is SubmittingTxPlanned || (self.task_state is SubmittingTx
                && self.restored_from_queue),
        ensures
            same_outcome(res, Submission::begin(*self)),
            res matches Ok(submission) ==> submission.well_formed(*self),
            self.task_state is SubmittingTx ==> res is Err,
            forall|replies: Replies, count: nat| #[trigger]
                reached(*self, replies, count) matches Some((_, Submission::Ready { transitions }))
                    ==> {
                    let found = found_on_chain(*self, replies, count);
                    &&& transitions.planned_by(*self)
                    &&& committed_on_chain(transitions.party0, found)
                    &&& committed_on_chain(transitions.party1, found)
                },
            forall|replies: Replies, index: nat, action: Action| #[trigger]
                calls(*self, replies, index, action) ==> {
                    &&& action is FindCommitment || action is SyncIntentProof
                        || action is SyncBalanceProof
                    &&& !action.writes_local_state()
                    &&& !(action is FindCommitment) ==> {
                        let found = found_on_chain(*self, replies, index);
                        &&& committed_on_chain(self.task_state->SubmittingTxPlanned_party0, found)
                        &&& committed_on_chain(self.task_state->SubmittingTxPlanned_party1, found)
                    }
                },
    {
        proof {
            assert forall|replies: Replies, count: nat| #[trigger]
                reached(*self, replies, count) matches Some(
                (_, Submission::Ready { transitions }),
            ) implies {
                let found = found_on_chain(*self, replies, count);
                let (_, submission) = reached(*self, replies, count)->0;
                let transitions = submission->Ready_transitions;
                &&& transitions.planned_by(*self)
                &&& committed_on_chain(transitions.party0, found)
                &&& committed_on_chain(transitions.party1, found)
            } by {
                let (now, submission) = reached(*self, replies, count)->0;
                law_run_keeps_invariant(*self, replies, count);
                law_recovery_is_proven(*self, replies, count, now, submission->Ready_transitions);
            }
            assert forall|replies: Replies, index: nat, action: Action| #[trigger]
                calls(*self, replies, index, action) implies {
                &&& action is FindCommitment || action is SyncIntentProof
                    || action is SyncBalanceProof
                &&& !action.writes_local_state()
                &&& !(action is FindCommitment) ==> {
                    let found = found_on_chain(*self, replies, index);
                    &&& committed_on_chain(self.task_state->SubmittingTxPlanned_party0, found)
                    &&& committed_on_chain(self.task_state->SubmittingTxPlanned_party1, found)
                }
            } by {
                law_recovery_never_submits(*self, replies, index, action);
                law_run_keeps_invariant(*self, replies, index);
                if !(action is FindCommitment) {
                    let transitions = Transitions {
                        party0: self.task_state->SubmittingTxPlanned_party0,
                        party1: self.task_state->SubmittingTxPlanned_party1,
                    };
                    law_proofs_are_synced_only_when_proven(
                        *self,
                        replies,
                        index,
                        action,
                        transitions,
                    );
                }
            }
        }
        match &self.task_state {
            SettleInternalMatchTaskState::SubmittingTxPlanned { party0, party1 } => {
                if !knows_committed_balances(party0) || !knows_committed_balances(party1) {
                    return Err(refuse_not_finalized());
                }
                let first_leg = start_first_leg(party0);
                let transitions = Transitions { party0: party0.clone(), party1: party1.clone() };
                Submission::with_first_leg(transitions, PartyId::Party0, first_leg)
            },
            _ => Err(refuse_not_finalized()),
        }
    }
}

} // verus!
