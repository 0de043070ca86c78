//! The steps of the settlement task.
use vstd::prelude::*;

use crate::ids::AccountId;
use crate::settlement::capture::Capture;
use crate::settlement::error::{SettleInternalMatchTaskError, SettleInternalMatchTaskErrorView};
use crate::settlement::party::MatchResult;
use crate::settlement::state::SettleInternalMatchTaskState;
use crate::settlement::submission::Submission;
use crate::settlement::task::SettleInternalMatchTask;
use crate::settlement::update::PartyUpdate;
use crate::settlement::validity::ValidityUpdate;

verus! {

/// The work of a step.
#[derive(Debug)]
pub enum StepWork {
    /// There is none, and the task is in its next state
    Done,
    /// The on-chain leg, to be finished with
    /// [`finish_submission`](SettleInternalMatchTask::finish_submission)
    Submit { submission: Submission },
    /// The local leg of both parties, side by side, to be finished with
    /// [`finish_update`](SettleInternalMatchTask::finish_update)
    UpdateState { updates: (PartyUpdate, PartyUpdate) },
    /// The validity proofs of both parties, side by side, to be finished with
    /// [`finish_validity_proofs`](SettleInternalMatchTask::finish_validity_proofs)
    UpdateValidityProofs { proofs: (ValidityUpdate, ValidityUpdate) },
}

/// The volume of a match, to be recorded in the metrics.
#[derive(Debug)]
pub struct MatchVolume {
    /// The match
    pub match_result: MatchResult,
    /// Whether a party of the match is external
    pub is_external_match: bool,
    /// The accounts that matched
    pub account_ids: Vec<AccountId>,
}

impl SettleInternalMatchTask {
    /// The work that a step in the current state is made of, or the error with which the
    /// step is refused.
    pub open spec fn step_work(self) -> Result<StepWork, SettleInternalMatchTaskErrorView> {
        match self.task_state {
            SettleInternalMatchTaskState::SubmittingTx
            | SettleInternalMatchTaskState::SubmittingTxPlanned { .. } => {
                match Submission::begin(self) {
                    Ok(submission) => Ok(StepWork::Submit { submission }),
                    Err(error) => Err(error),
                }
            },
            SettleInternalMatchTaskState::UpdatingState { party0, party1 } => Ok(
                StepWork::UpdateState {
                    updates: (
                        PartyUpdate::Capturing { transition: party0, capture: Capture::Order },
                        PartyUpdate::Capturing { transition: party1, capture: Capture::Order },
                    ),
                },
            ),
            SettleInternalMatchTaskState::UpdatingValidityProofs => Ok(
                StepWork::UpdateValidityProofs {
                    proofs: (ValidityUpdate::ReadingOrder, ValidityUpdate::ReadingOrder),
                },
            ),
            _ => Ok(StepWork::Done),
        }
    }

    /// Begins a step. A pending task goes straight to its next state; in any other
    /// state the task stays as it is until its work is finished.
    pub fn step(&mut self) -> (res: Result<StepWork, SettleInternalMatchTaskError>)
        requires
            !(old(self).task_state is Completed),
        ensures
            match (res, old(self).step_work()) {
                (Ok(work), Ok(expected)) => work == expected,
                (Err(error), Err(expected)) => error@ == expected,
                _ => false,
            },
            res matches Ok(StepWork::Submit { submission }) ==> submission.well_formed(
                *final(self),
            ),
            old(self).task_state is Pending ==> *final(self) == (SettleInternalMatchTask {
                task_state: SettleInternalMatchTaskState::SubmittingTx,
                ..*old(self)
            }),
            !(old(self).task_state is Pending) ==> *final(self) == *old(self),
            res matches Ok(StepWork::Done) ==> final(self).task_state@.phase() == old(
                self,
            ).task_state@.phase() + 1,
    {
        match &self.task_state {
            SettleInternalMatchTaskState::Pending => {
                self.task_state = SettleInternalMatchTaskState::SubmittingTx;
                Ok(StepWork::Done)
            },
            SettleInternalMatchTaskState::SubmittingTx
            | SettleInternalMatchTaskState::SubmittingTxPlanned { .. } => {
                match Submission::start(self) {
                    Ok(submission) => Ok(StepWork::Submit { submission }),
                    Err(error) => Err(error),
                }
            },
            SettleInternalMatchTaskState::UpdatingState { party0, party1 } => Ok(
                StepWork::UpdateState {
                    updates: (
                        PartyUpdate::start(party0.clone()),
                        PartyUpdate::start(party1.clone()),
                    ),
                },
            ),
            SettleInternalMatchTaskState::UpdatingValidityProofs => Ok(
                StepWork::UpdateValidityProofs {
                    proofs: (ValidityUpdate::start(), ValidityUpdate::start()),
                },
            ),
            SettleInternalMatchTaskState::Completed => Ok(StepWork::Done),
        }
    }

    /// Finishes the step of the on-chain leg. From here on the task goes by the
    /// transitions that are in its state.
    pub fn finish_submission(&mut self, submission: Submission)
        requires
            submission is Ready,
            submission.well_formed(*old(self)),
        ensures
            *final(self) == (SettleInternalMatchTask {
                task_state: SettleInternalMatchTaskState::UpdatingState {
                    party0: submission->Ready_transitions.party0,
                    party1: submission->Ready_transitions.party1,
                },
                restored_from_queue: false,
                ..*old(self)
            }),
            final(self).task_state@.phase() == old(self).task_state@.phase() + 1,
    {
        if let Submission::Ready { transitions } = submission {
            self.restored_from_queue = false;
            self.task_state = SettleInternalMatchTaskState::UpdatingState {
                party0: transitions.party0,
                party1: transitions.party1,
            };
        }
    }

    /// Finishes the step of the local leg.
    pub fn finish_update(&mut self, party0: PartyUpdate, party1: PartyUpdate)
        requires
            old(self).task_state is UpdatingState,
            party0 is Applied,
            party1 is Applied,
        ensures
            *final(self) == (SettleInternalMatchTask {
                task_state: SettleInternalMatchTaskState::UpdatingValidityProofs,
                ..*old(self)
            }),
            final(self).task_state@.phase() == old(self).task_state@.phase() + 1,
    {
        self.task_state = SettleInternalMatchTaskState::UpdatingValidityProofs;
    }

    /// Finishes the step of the validity proofs, and with it the task. Gives the
    /// volume to be recorded.
    pub fn finish_validity_proofs(
        &mut self,
        party0: ValidityUpdate,
        party1: ValidityUpdate,
    ) -> (res: MatchVolume)
        requires
            old(self).task_state is UpdatingValidityProofs,
            party0 is Proven,
            party1 is Proven,
        ensures
            *final(self) == (SettleInternalMatchTask {
                task_state: SettleInternalMatchTaskState::Completed,
                ..*old(self)
            }),
            final(self).task_state@.phase() == old(self).task_state@.phase() + 1,
            res.match_result == old(self).match_result,
            !res.is_external_match,
            res.account_ids@ == seq![old(self).account_id, old(self).other_account_id],
    {
        self.task_state = SettleInternalMatchTaskState::Completed;
        MatchVolume {
            match_result: self.match_result.clone(),
            is_external_match: false,
            account_ids: vec![self.account_id, self.other_account_id],
        }
    }
}

} // verus!
