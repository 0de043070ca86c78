//! Taking up a task that the task queue holds.
use vstd::prelude::*;

use crate::task_state::{decode_task_state, decoded_state, QueuedTaskState, QueuedTaskStateView};
use crate::traits::{committed_in, TaskState};

verus! {

/// How a task that the task queue holds is taken up, where it is not safe to run a
/// committed task again from its beginning.
#[derive(Debug)]
pub enum Resumption<T: TaskState> {
    /// It has not committed, and is begun afresh
    Fresh,
    /// It is taken up in the persisted state
    Restore { state: T },
    /// It cannot be taken up safely
    Refuse,
}

/// The model of a [`Resumption`].
pub enum ResumptionView<T: TaskState> {
    Fresh,
    Restore { state: T::V },
    Refuse,
}

impl<T: TaskState> View for Resumption<T> {
    type V = ResumptionView<T>;

    open spec fn view(&self) -> ResumptionView<T> {
        match self {
            Resumption::Fresh => ResumptionView::Fresh,
            Resumption::Restore { state } => ResumptionView::Restore { state: state@ },
            Resumption::Refuse => ResumptionView::Refuse,
        }
    }
}

/// How a queued task is taken up. One that has committed, by the queue or by its payload,
/// goes on from its payload and from nothing else; without one, or with one that cannot
/// be read, it fails closed. One that has not committed is begun afresh.
pub open spec fn resumption_of<T: TaskState>(queued: QueuedTaskStateView) -> ResumptionView<T> {
    match decoded_state::<T>(queued) {
        Ok(Some(state)) => if queued.committed() || committed_in::<T>(state) {
            ResumptionView::Restore { state }
        } else {
            ResumptionView::Fresh
        },
        Ok(None) => if queued.committed() {
            ResumptionView::Refuse
        } else {
            ResumptionView::Fresh
        },
        Err(_) => ResumptionView::Refuse,
    }
}

/// How a queued task is taken up.
pub fn plan_resumption<T: TaskState>(queued: &QueuedTaskState) -> (res: Resumption<T>)
    ensures
        res@ == resumption_of::<T>(queued@),
{
    match decode_task_state::<T>(queued) {
        Ok(Some(state)) => {
            if queued.committed() || state.committed() {
                Resumption::Restore { state }
            } else {
                Resumption::Fresh
            }
        },
        Ok(None) => {
            if queued.committed() {
                Resumption::Refuse
            } else {
                Resumption::Fresh
            }
        },
        Err(_) => Resumption::Refuse,
    }
}

/// A queued task is never begun afresh once it has committed, by the queue or by its
/// payload, and is begun afresh otherwise; it is taken up only in the very state that its
/// payload holds; and it is refused if and only if its payload cannot be read, or is
/// missing though the queue has the task down as committed.
pub proof fn law_committed_task_goes_on_from_its_payload<T: TaskState>(
    queued: QueuedTaskStateView,
)
    ensures
        match decoded_state::<T>(queued) {
            Ok(Some(state)) => {
                let has_committed = T::phase_of(state) >= T::phase_of(T::committing());
                let is_down_as_committed = queued matches QueuedTaskStateView::Running {
                    committed,
                    ..
                } && committed;
                &&& has_committed || is_down_as_committed <==> resumption_of::<T>(queued)
                    == (ResumptionView::<T>::Restore { state })
                &&& !has_committed && !is_down_as_committed <==> resumption_of::<T>(
                    queued,
                ) is Fresh
            },
            Ok(None) => {
                let is_down_as_committed = queued matches QueuedTaskStateView::Running {
                    committed,
                    ..
                } && committed;
                &&& is_down_as_committed <==> resumption_of::<T>(queued) is Refuse
                &&& !is_down_as_committed <==> resumption_of::<T>(queued) is Fresh
            },
            Err(_) => resumption_of::<T>(queued) is Refuse,
        },
{
}

} // verus!
