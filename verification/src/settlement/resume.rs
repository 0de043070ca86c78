//! Taking up a settlement that the task queue holds.
use vstd::prelude::*;

use crate::resumption::{plan_resumption, resumption_of, Resumption, ResumptionView};
use crate::settlement::error::{
    missing_recovery_payload, refuse_missing_recovery_payload, SettleInternalMatchTaskError,
};
use crate::settlement::state::SettleInternalMatchTaskState;
use crate::settlement::task::{SettleInternalMatchTask, SettleInternalMatchTaskDescriptor};
use crate::task_state::QueuedTaskState;
use crate::traits::Task;

verus! {

/// Takes up a queued settlement. A committed one is taken up in the state that it has
/// persisted, and refused where it has none. What is to happen after a refusal, the
/// descriptor says: see [`SettleInternalMatchTaskDescriptor::failure_hooks`].
pub fn resume(descriptor: SettleInternalMatchTaskDescriptor, queued: &QueuedTaskState) -> (res:
    Result<SettleInternalMatchTask, SettleInternalMatchTaskError>)
    ensures
        match resumption_of::<SettleInternalMatchTaskState>(queued@) {
            ResumptionView::Fresh => res == SettleInternalMatchTask::spec_new(descriptor),
            ResumptionView::Restore { state } => {
                &&& res matches Ok(task)
                &&& task.task_state@ == state
                &&& task == SettleInternalMatchTask::spec_new(descriptor)->Ok_0.spec_restored(
                    task.task_state,
                )
            },
            ResumptionView::Refuse => res matches Err(error) && error@
                == missing_recovery_payload(),
        },
{
    match plan_resumption::<SettleInternalMatchTaskState>(queued) {
        Resumption::Fresh => SettleInternalMatchTask::new(descriptor),
        Resumption::Restore { state } => SettleInternalMatchTask::restore(descriptor, Some(state)),
        Resumption::Refuse => Err(refuse_missing_recovery_payload()),
    }
}

} // verus!
