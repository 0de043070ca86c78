//! Encapsulates the running task's bookkeeping structure to simplify the driver
//! logic
use vstd::prelude::*;

use crate::ids::{AccountId, TaskIdentifier};
use crate::task_state::{
    records, QueuedTaskState, TaskStateView, TaskStateWrapper, TaskStates, WrapTaskState,
};
use crate::traits::{Task, TaskError, TaskState};

verus! {

/// An error with which the driver aborts a task.
#[derive(Debug)]
pub enum TaskDriverError<E> {
    /// The task failed
    Task(E),
    /// The global state failed
    State(String),
}

/// The container type for a task running in the driver
///
/// Used to simplify driver logic
pub struct RunnableTask<T: Task> {
    /// The id of the underlying task
    task_id: TaskIdentifier,
    /// The underlying task
    task: T,
}

/// What follows a step of a task.
#[derive(Debug)]
pub enum AfterStep<E> {
    /// The step succeeded, and the state is to be transitioned
    Transition,
    /// The step failed, and is worth another try if the task is still running
    LookUp { task_id: TaskIdentifier, error: E },
    /// The step failed, and the task is to be aborted
    Abort { error: E },
}

/// A transition of a task to be proposed to the consensus engine.
#[derive(Debug)]
pub struct StateTransition {
    /// The task
    pub task_id: TaskIdentifier,
    /// The new state of the task in the queue
    pub state: QueuedTaskState,
    /// Whether consensus is to be awaited before the task goes on
    pub await_consensus: bool,
}

impl<T: Task> RunnableTask<T> {
    /// The id of the underlying task.
    pub closed spec fn spec_id(self) -> TaskIdentifier {
        self.task_id
    }

    /// The underlying task.
    pub closed spec fn spec_inner(self) -> T {
        self.task
    }

    /// Creates a new running task from the given task
    pub fn new(task_id: TaskIdentifier, task: T) -> (res: Self)
        ensures
            res.spec_id() == task_id,
            res.spec_inner() == task,
    {
        RunnableTask { task_id, task }
    }

    /// Get the inner task
    pub fn inner(&self) -> (res: &T)
        ensures
            *res == self.spec_inner(),
    {
        &self.task
    }

    /// Get the inner task, to run it
    pub fn inner_mut(&mut self) -> (res: &mut T)
        ensures
            *res == old(self).spec_inner(),
            final(self).spec_inner() == *final(res),
            final(self).spec_id() == old(self).spec_id(),
    {
        &mut self.task
    }

    /// Create a runnable from the given descriptor
    pub fn from_descriptor(id: TaskIdentifier, descriptor: T::Descriptor) -> (res: Result<
        Self,
        TaskDriverError<T::Error>,
    >)
        ensures
            match (res, T::spec_new(descriptor)) {
                (Ok(runnable), Ok(task)) => runnable.spec_id() == id && runnable.spec_inner()
                    == task,
                (Err(TaskDriverError::Task(error)), Err(expected)) => error == expected,
                _ => false,
            },
    {
        Self::restore(id, descriptor, None)
    }

    /// Create a runnable from the given descriptor, restoring persisted task state
    pub fn restore(
        id: TaskIdentifier,
        descriptor: T::Descriptor,
        restored_state: Option<T::State>,
    ) -> (res: Result<Self, TaskDriverError<T::Error>>)
        ensures
            match (res, T::spec_new(descriptor)) {
                (Ok(runnable), Ok(task)) => {
                    &&& runnable.spec_id() == id
                    &&& match restored_state {
                        Some(state) => {
                            &&& runnable.spec_inner() == task.spec_restored(state)
                            &&& runnable.spec_inner().spec_task_state() == state
                        },
                        None => runnable.spec_inner() == task,
                    }
                },
                (Err(TaskDriverError::Task(error)), Err(expected)) => error == expected,
                _ => false,
            },
    {
        match T::restore(descriptor, restored_state) {
            Ok(task) => Ok(Self::new(id, task)),
            Err(error) => Err(TaskDriverError::Task(error)),
        }
    }

    /// The ID of the underlying task
    pub fn id(&self) -> (res: TaskIdentifier)
        ensures
            res == self.spec_id(),
    {
        self.task_id
    }

    /// Whether the underlying task completed
    pub fn completed(&self) -> (res: bool)
        ensures
            res == T::State::completed_in(self.spec_inner().spec_task_state()@),
    {
        self.task.completed()
    }

    /// Returns the state of the underlying task
    pub fn state<S: TaskStates>(&self) -> (res: TaskStateWrapper<S>) where
        T::State: WrapTaskState<S>,

        ensures
            res == self.spec_inner().spec_task_state().spec_wrapped(),
    {
        self.task.task_state().wrapped()
    }

    /// `true` if the task does not need to update the task queue during state
    /// transitions or cleanup
    pub fn bypass_task_queue(&self) -> (res: bool)
        ensures
            res == self.spec_inner().spec_bypass_task_queue(),
    {
        self.task.bypass_task_queue()
    }

    /// Takes in the outcome of a step of the underlying task. A failure that is
    /// worth another try is looked into, any other aborts the task
    pub fn step(&self, outcome: Result<(), T::Error>) -> (res: AfterStep<T::Error>)
        ensures
            match outcome {
                Ok(_) => res is Transition,
                Err(error) => res == if error.spec_retryable() {
                    AfterStep::LookUp { task_id: self.spec_id(), error }
                } else {
                    AfterStep::Abort { error }
                },
            },
            res == after_step(self.spec_id(), outcome),
    {
        match outcome {
            Ok(_) => AfterStep::Transition,
            Err(error) => {
                if error.retryable() {
                    AfterStep::LookUp { task_id: self.task_id, error }
                } else {
                    AfterStep::Abort { error }
                }
            },
        }
    }

    /// The transition to attempt of the underlying task in the consensus engine, if
    /// there is one. Preemptive tasks need not update state in the consensus engine
    ///
    /// If the state commits the task (first state past the commit point), or if the
    /// task is completed, then consensus is awaited before continuing
    pub fn transition_state<S: TaskStates>(&self) -> (res: Option<StateTransition>) where
        T::State: WrapTaskState<S>,

        ensures
            match res {
                Some(transition) => {
                    let new_state: TaskStateView<S> =
                        self.spec_inner().spec_task_state().spec_wrapped()@;
                    &&& !self.spec_inner().spec_bypass_task_queue()
                    &&& transition.task_id == self.spec_id()
                    &&& records(transition.state@, new_state)
                    &&& transition.await_consensus == (new_state.is_committing()
                        || new_state.completed())
                    &&& transition.await_consensus == new_state.awaits_consensus()
                },
                None => self.spec_inner().spec_bypass_task_queue(),
            },
    {
        if self.bypass_task_queue() {
            return None;
        }
        let new_state: TaskStateWrapper<S> = self.state();
        let is_commit = new_state.is_committing();
        let is_completed = new_state.completed();
        Some(
            StateTransition {
                task_id: self.task_id,
                state: QueuedTaskState::from(new_state),
                await_consensus: is_commit || is_completed,
            },
        )
    }

    /// Cleanup the underlying task
    pub fn cleanup(&self, success: bool, affected_accounts: Vec<AccountId>) -> (res: Cleanup)
        ensures
            res == (Cleanup {
                task_id: self.spec_id(),
                bypass_task_queue: self.spec_inner().spec_bypass_task_queue(),
                success,
                affected_accounts,
                stage: CleanupStage::CleaningTask,
            }),
    {
        Cleanup {
            task_id: self.task_id,
            bypass_task_queue: self.bypass_task_queue(),
            success,
            affected_accounts,
            stage: CleanupStage::CleaningTask,
        }
    }
}

/// What follows a step of a task.
pub open spec fn after_step<E: TaskError>(
    task_id: TaskIdentifier,
    outcome: Result<(), E>,
) -> AfterStep<E> {
    match outcome {
        Ok(_) => AfterStep::Transition,
        Err(error) => if error.spec_retryable() {
            AfterStep::LookUp { task_id, error }
        } else {
            AfterStep::Abort { error }
        },
    }
}

/// What the driver is told of a failed step that is worth another try.
pub open spec fn after_lookup<E>(
    error: E,
    task: Result<Option<QueuedTaskState>, String>,
) -> Result<bool, TaskDriverError<E>> {
    match task {
        Ok(Some(state)) => if state@ is Running {
            Ok(false)
        } else {
            Err(TaskDriverError::Task(error))
        },
        Ok(None) => Err(TaskDriverError::Task(error)),
        Err(failure) => Err(TaskDriverError::State(failure)),
    }
}

/// What the driver is told of a step that succeeded.
pub open spec fn after_transition<E>(transition: Result<(), String>) -> Result<
    bool,
    TaskDriverError<E>,
> {
    match transition {
        Ok(_) => Ok(true),
        Err(failure) => Err(TaskDriverError::State(failure)),
    }
}

/// A step that succeeded leads to a transition. One that failed is looked into if and only
/// if its error is worth another try, under the identifier of its task, and aborts the task
/// otherwise; either way with that very error.
pub proof fn law_failed_steps_go_by_their_error<E: TaskError>(
    task_id: TaskIdentifier,
    outcome: Result<(), E>,
)
    ensures
        outcome is Ok <==> after_step(task_id, outcome) is Transition,
        outcome matches Err(error) ==> {
            &&& error.spec_retryable() <==> after_step(task_id, outcome) is LookUp
            &&& !error.spec_retryable() <==> after_step(task_id, outcome) is Abort
            &&& after_step(task_id, outcome) matches AfterStep::LookUp { task_id: id, error: kept }
                ==> id == task_id && kept == error
            &&& after_step(task_id, outcome) matches AfterStep::Abort { error: kept } ==> kept
                == error
        },
{
}

/// A failed step is tried again if and only if its task is found to be running. Where the
/// task is not, the driver is told the error of the step; where it cannot be looked up, the
/// failure to do so. A failed step is never told as a success.
pub proof fn law_only_running_tasks_are_retried<E>(
    error: E,
    task: Result<Option<QueuedTaskState>, String>,
)
    ensures
        after_lookup(error, task) != Ok::<bool, TaskDriverError<E>>(true),
        after_lookup(error, task) is Ok <==> (task matches Ok(Some(state))
            && state@ is Running),
        after_lookup(error, task) matches Err(TaskDriverError::Task(told)) ==> told == error
            && task is Ok,
        after_lookup(error, task) matches Err(TaskDriverError::State(told)) ==> task == Err::<
            Option<QueuedTaskState>,
            String,
        >(told),
{
}

/// A step that succeeded is told as a success if and only if its transition went through,
/// and a failed transition as the failure that it is.
pub proof fn law_successful_steps_are_told<E>(transition: Result<(), String>)
    ensures
        transition is Ok <==> after_transition::<E>(transition) == Ok::<bool, TaskDriverError<E>>(
            true,
        ),
        transition matches Err(failure) ==> after_transition::<E>(transition) == Err::<
            bool,
            TaskDriverError<E>,
        >(TaskDriverError::State(failure)),
{
}

/// Whether a task that was looked up is marked as running.
pub fn is_task_running(task: &Option<QueuedTaskState>) -> (res: bool)
    ensures
        res == (task is Some && task->0@ is Running),
{
    match task {
        Some(state) => state.is_running(),
        None => false,
    }
}

/// What the driver is told of a failed step that is worth another try, once the task
/// has been looked up: `Ok(false)` means that the step should be retried, an error
/// that the task should be aborted.
pub fn retry<E>(error: E, task: Result<Option<QueuedTaskState>, String>) -> (res: Result<
    bool,
    TaskDriverError<E>,
>)
    ensures
        match task {
            Ok(task) => if task is Some && task->0@ is Running {
                res == Ok::<bool, TaskDriverError<E>>(false)
            } else {
                res == Err::<bool, TaskDriverError<E>>(TaskDriverError::Task(error))
            },
            Err(failure) => res == Err::<bool, TaskDriverError<E>>(
                TaskDriverError::State(failure),
            ),
        },
        res == after_lookup(error, task),
{
    match task {
        Ok(task) => {
            if is_task_running(&task) {
                Ok(false)
            } else {
                Err(TaskDriverError::Task(error))
            }
        },
        Err(failure) => Err(TaskDriverError::State(failure)),
    }
}

/// What the driver is told of a step that succeeded, once the state has been
/// transitioned: `Ok(true)`, unless the transition failed.
pub fn stepped<E>(transition: Result<(), String>) -> (res: Result<bool, TaskDriverError<E>>)
    ensures
        match transition {
            Ok(_) => res == Ok::<bool, TaskDriverError<E>>(true),
            Err(failure) => res == Err::<bool, TaskDriverError<E>>(
                TaskDriverError::State(failure),
            ),
        },
        res == after_transition::<E>(transition),
{
    match transition {
        Ok(_) => Ok(true),
        Err(failure) => Err(TaskDriverError::State(failure)),
    }
}

/// How far the cleanup of a task has come.
#[derive(Debug)]
pub enum CleanupStage {
    /// The task cleans up after itself
    CleaningTask,
    /// The removal of the task from its queue is being proposed
    Popping,
    /// The removal of the task from its queue is being awaited
    AwaitingPop,
    /// The clearing of an affected account's queue is being proposed
    Clearing { index: usize, failure: String },
    /// The clearing of an affected account's queue is being awaited
    AwaitingClear { index: usize, failure: String },
    /// The cleanup is over. A failure of it is logged, and nothing more
    Finished { outcome: Result<(), String> },
}

/// The cleanup of a task.
#[derive(Debug)]
pub struct Cleanup {
    /// The task
    pub task_id: TaskIdentifier,
    /// Whether the task leaves the task queue alone
    pub bypass_task_queue: bool,
    /// Whether the task succeeded
    pub success: bool,
    /// The accounts that the task affects
    pub affected_accounts: Vec<AccountId>,
    /// How far the cleanup has come
    pub stage: CleanupStage,
}

/// A call that cleanup makes.
#[derive(Debug)]
pub enum CleanupAction {
    /// Have the task clean up after itself
    CleanTask,
    /// Propose to remove the task from its queue
    ProposePop { task_id: TaskIdentifier, success: bool },
    /// Await the removal
    AwaitPop,
    /// Propose to clear the queue of an account
    ProposeClear { account_id: AccountId },
    /// Await the clearing
    AwaitClear { account_id: AccountId },
}

impl Cleanup {
    /// Whether this is a point that a cleanup can come to.
    pub open spec fn well_formed(self) -> bool {
        match self.stage {
            CleanupStage::Clearing { index, .. } => index < self.affected_accounts@.len(),
            CleanupStage::AwaitingClear { index, .. } => index < self.affected_accounts@.len(),
            _ => true,
        }
    }

    /// The call to make next, until the cleanup is over.
    pub open spec fn next_action(self) -> Option<CleanupAction> {
        match self.stage {
            CleanupStage::CleaningTask => Some(CleanupAction::CleanTask),
            CleanupStage::Popping => Some(
                CleanupAction::ProposePop { task_id: self.task_id, success: self.success },
            ),
            CleanupStage::AwaitingPop => Some(CleanupAction::AwaitPop),
            CleanupStage::Clearing { index, .. } => Some(
                CleanupAction::ProposeClear { account_id: self.affected_accounts@[index as int] },
            ),
            CleanupStage::AwaitingClear { index, .. } => Some(
                CleanupAction::AwaitClear { account_id: self.affected_accounts@[index as int] },
            ),
            CleanupStage::Finished { .. } => None,
        }
    }

    /// Where the cleanup goes on with the queue of the next account.
    pub open spec fn clearing_from(self, index: int, failure: String) -> CleanupStage {
        if index < self.affected_accounts@.len() {
            CleanupStage::Clearing { index: index as usize, failure }
        } else {
            CleanupStage::Finished { outcome: Err(failure) }
        }
    }

    /// Where the cleanup stands once the last call has succeeded or failed. The
    /// queues of the affected accounts are cleared if the removal could not be
    /// proposed or did not come through, and then the latest failure is kept.
    pub open spec fn after_reply(self, reply: Result<(), String>) -> CleanupStage {
        match (self.stage, reply) {
            (CleanupStage::CleaningTask, _) => if self.bypass_task_queue {
                CleanupStage::Finished { outcome: Ok(()) }
            } else {
                CleanupStage::Popping
            },
            (CleanupStage::Popping, Ok(_)) => CleanupStage::AwaitingPop,
            (CleanupStage::Popping, Err(failure)) => self.clearing_from(0, failure),
            (CleanupStage::AwaitingPop, Err(failure)) => self.clearing_from(0, failure),
            (CleanupStage::Clearing { index, failure }, Ok(_)) => CleanupStage::AwaitingClear {
                index,
                failure,
            },
            (CleanupStage::AwaitingClear { index, failure }, reply) => self.clearing_from(
                index + 1,
                match reply {
                    Ok(_) => failure,
                    Err(newer) => newer,
                },
            ),
            (CleanupStage::Finished { outcome }, _) => CleanupStage::Finished { outcome },
            (_, outcome) => CleanupStage::Finished { outcome },
        }
    }

    /// The call to make next, until the cleanup is over.
    pub fn action(&self) -> (res: Option<CleanupAction>)
        requires
            self.well_formed(),
        ensures
            res == self.next_action(),
    {
        match &self.stage {
            CleanupStage::CleaningTask => Some(CleanupAction::CleanTask),
            CleanupStage::Popping => Some(
                CleanupAction::ProposePop { task_id: self.task_id, success: self.success },
            ),
            CleanupStage::AwaitingPop => Some(CleanupAction::AwaitPop),
            CleanupStage::Clearing { index, .. } => Some(
                CleanupAction::ProposeClear { account_id: self.affected_accounts[*index] },
            ),
            CleanupStage::AwaitingClear { index, .. } => Some(
                CleanupAction::AwaitClear { account_id: self.affected_accounts[*index] },
            ),
            CleanupStage::Finished { .. } => None,
        }
    }

    /// Where the cleanup goes on with the queue of the next account.
    fn clear_from(&self, index: usize, failure: String) -> (res: CleanupStage)
        ensures
            res == self.clearing_from(index as int, failure),
    {
        if index < self.affected_accounts.len() {
            CleanupStage::Clearing { index, failure }
        } else {
            CleanupStage::Finished { outcome: Err(failure) }
        }
    }

    /// Pop a task from a queue: takes in the outcome of the last call
    ///
    /// This will clear the task queues of the affected accounts if popping the task
    /// fails
    pub fn pop_task_or_clear_queue(self, reply: Result<(), String>) -> (res: Cleanup)
        requires
            self.well_formed(),
        ensures
            res == (Cleanup { stage: self.after_reply(reply), ..self }),
            res.well_formed(),
    {
        let Cleanup { task_id, bypass_task_queue, success, affected_accounts, stage } = self;
        let rest = Cleanup {
            task_id,
            bypass_task_queue,
            success,
            affected_accounts,
            stage: CleanupStage::CleaningTask,
        };
        assert(rest.affected_accounts.len() <= usize::MAX);
        let stage = match (stage, reply) {
            (CleanupStage::CleaningTask, _) => {
                if rest.bypass_task_queue {
                    CleanupStage::Finished { outcome: Ok(()) }
                } else {
                    CleanupStage::Popping
                }
            },
            (CleanupStage::Popping, Ok(_)) => CleanupStage::AwaitingPop,
            (CleanupStage::Popping, Err(failure)) => rest.clear_from(0, failure),
            (CleanupStage::AwaitingPop, Err(failure)) => rest.clear_from(0, failure),
            (CleanupStage::Clearing { index, failure }, Ok(_)) => CleanupStage::AwaitingClear {
                index,
                failure,
            },
            (CleanupStage::AwaitingClear { index, failure }, reply) => {
                let failure = match reply {
                    Ok(_) => failure,
                    Err(newer) => newer,
                };
                rest.clear_from(index + 1, failure)
            },
            (CleanupStage::Finished { outcome }, _) => CleanupStage::Finished { outcome },
            (_, outcome) => CleanupStage::Finished { outcome },
        };
        Cleanup { stage, ..rest }
    }
}

/// Where a cleanup stands after the first `count` replies.
pub open spec fn cleanup_after(
    cleanup: Cleanup,
    replies: Seq<Result<(), String>>,
    count: nat,
) -> Cleanup
    decreases count,
{
    if count == 0 {
        cleanup
    } else {
        let last = cleanup_after(cleanup, replies, (count - 1) as nat);
        Cleanup { stage: last.after_reply(replies[count - 1]), ..last }
    }
}

/// How many calls a cleanup still makes at most.
spec fn cleanup_calls_left(cleanup: Cleanup) -> int {
    let count = cleanup.affected_accounts@.len() as int;
    match cleanup.stage {
        CleanupStage::CleaningTask => 3 + 2 * count,
        CleanupStage::Popping => 2 + 2 * count,
        CleanupStage::AwaitingPop => 1 + 2 * count,
        CleanupStage::Clearing { index, .. } => 2 * (count - index),
        CleanupStage::AwaitingClear { index, .. } => 2 * (count - index) - 1,
        CleanupStage::Finished { .. } => 0,
    }
}

/// Only its stage changes in the course of a cleanup, which goes from points that it
/// can come to on to such points, and has ever fewer calls to make.
proof fn lemma_cleanup_progress(
    cleanup: Cleanup,
    replies: Seq<Result<(), String>>,
    count: nat,
)
    requires
        cleanup.stage is CleaningTask,
    ensures
        ({
            let now = cleanup_after(cleanup, replies, count);
            &&& now == (Cleanup { stage: now.stage, ..cleanup })
            &&& now.well_formed()
            &&& 0 <= cleanup_calls_left(now)
            &&& now.stage is Finished || count + cleanup_calls_left(now) <= 3 + 2
                * cleanup.affected_accounts@.len()
            &&& count >= 1 ==> !(now.stage is CleaningTask)
            &&& count >= 2 ==> !(now.stage is Popping)
        }),
    decreases count,
{
    assert(cleanup.affected_accounts.len() <= usize::MAX);
    if count > 0 {
        lemma_cleanup_progress(cleanup, replies, (count - 1) as nat);
    }
}

/// A cleanup ends, whatever fails in it: it takes at most three calls, and two more
/// for each affected account.
pub proof fn law_cleanup_ends(cleanup: Cleanup, replies: Seq<Result<(), String>>, count: nat)
    requires
        cleanup.stage is CleaningTask,
        3 + 2 * cleanup.affected_accounts@.len() <= count <= replies.len(),
    ensures
        cleanup_after(cleanup, replies, count).stage is Finished,
{
    lemma_cleanup_progress(cleanup, replies, count);
}

/// A task that leaves the task queue alone leaves it alone in its cleanup, too.
pub proof fn law_bypass_leaves_queues_alone(
    cleanup: Cleanup,
    replies: Seq<Result<(), String>>,
    count: nat,
)
    requires
        cleanup.stage is CleaningTask,
        cleanup.bypass_task_queue,
        1 <= count <= replies.len(),
    ensures
        cleanup_after(cleanup, replies, count).next_action() is None,
    decreases count,
{
    lemma_cleanup_progress(cleanup, replies, (count - 1) as nat);
    if count > 1 {
        law_bypass_leaves_queues_alone(cleanup, replies, (count - 1) as nat);
    }
}

/// A queue is cleared only where the removal of the task could not be proposed or did
/// not come through.
pub proof fn law_clears_only_after_failed_pop(
    cleanup: Cleanup,
    replies: Seq<Result<(), String>>,
    count: nat,
)
    requires
        cleanup.stage is CleaningTask,
        count <= replies.len(),
        cleanup_after(cleanup, replies, count).next_action() matches Some(action)
            && action is ProposeClear,
    ensures
        !cleanup.bypass_task_queue,
        count >= 2,
        cleanup_after(cleanup, replies, 1).stage is Popping,
        replies[1] is Err || (count >= 3 && cleanup_after(
            cleanup,
            replies,
            2,
        ).stage is AwaitingPop && replies[2] is Err),
{
    lemma_clearing(cleanup, replies, count);
}

/// A cleanup that is about to clear a queue has failed to remove the task.
proof fn lemma_clearing(cleanup: Cleanup, replies: Seq<Result<(), String>>, count: nat)
    requires
        cleanup.stage is CleaningTask,
        ({
            let stage = cleanup_after(cleanup, replies, count).stage;
            stage is Clearing || stage is AwaitingClear
        }),
    ensures
        !cleanup.bypass_task_queue,
        count >= 2,
        cleanup_after(cleanup, replies, 1).stage is Popping,
        replies[1] is Err || (count >= 3 && cleanup_after(
            cleanup,
            replies,
            2,
        ).stage is AwaitingPop && replies[2] is Err),
    decreases count,
{
    reveal_with_fuel(cleanup_after, 4);
    if count > 3 {
        lemma_cleanup_progress(cleanup, replies, (count - 1) as nat);
        let before = cleanup_after(cleanup, replies, (count - 1) as nat);
        if before.stage is AwaitingPop {
            lemma_awaiting_pop(cleanup, replies, (count - 1) as nat);
        } else {
            lemma_clearing(cleanup, replies, (count - 1) as nat);
        }
    }
}

/// A cleanup awaits the removal of the task after two replies, and at no other point.
proof fn lemma_awaiting_pop(cleanup: Cleanup, replies: Seq<Result<(), String>>, count: nat)
    requires
        cleanup.stage is CleaningTask,
        cleanup_after(cleanup, replies, count).stage is AwaitingPop,
    ensures
        count == 2,
{
    reveal_with_fuel(cleanup_after, 3);
    if count > 2 {
        lemma_cleanup_progress(cleanup, replies, (count - 1) as nat);
    }
}

/// After how many replies the first queue is cleared: two where the removal of the
/// task could not be proposed, three where it did not come through.
pub open spec fn clearing_start(replies: Seq<Result<(), String>>) -> nat {
    if replies[1] is Err {
        2
    } else {
        3
    }
}

/// Where the removal of the task cannot be proposed or does not come through, the
/// queue of each affected account is cleared in turn, as long as the clearing can be
/// proposed.
pub proof fn law_clears_every_affected_account(
    cleanup: Cleanup,
    replies: Seq<Result<(), String>>,
    index: nat,
)
    requires
        cleanup.stage is CleaningTask,
        !cleanup.bypass_task_queue,
        index < cleanup.affected_accounts@.len(),
        clearing_start(replies) + 2 * index <= replies.len(),
        replies[1] is Err || replies[2] is Err,
        forall|earlier: int|
            0 <= earlier < index ==> #[trigger] replies[clearing_start(replies) + 2 * earlier] is Ok,
    ensures
        cleanup_after(cleanup, replies, clearing_start(replies) + 2 * index).next_action() == Some(
            CleanupAction::ProposeClear { account_id: cleanup.affected_accounts@[index as int] },
        ),
{
    lemma_clears_in_turn(cleanup, replies, index);
}

/// The cleanup comes to the queue of each affected account in turn.
proof fn lemma_clears_in_turn(
    cleanup: Cleanup,
    replies: Seq<Result<(), String>>,
    index: nat,
)
    requires
        cleanup.stage is CleaningTask,
        !cleanup.bypass_task_queue,
        index < cleanup.affected_accounts@.len(),
        replies[1] is Err || replies[2] is Err,
        forall|earlier: int|
            0 <= earlier < index ==> #[trigger] replies[clearing_start(replies) + 2 * earlier] is Ok,
    ensures
        ({
            let now = cleanup_after(cleanup, replies, clearing_start(replies) + 2 * index);
            &&& now.stage matches CleanupStage::Clearing { index: reached, .. }
            &&& reached == index
            &&& now == (Cleanup { stage: now.stage, ..cleanup })
        }),
    decreases index,
{
    let start = clearing_start(replies);
    assert(cleanup.affected_accounts.len() <= usize::MAX);
    if index == 0 {
        reveal_with_fuel(cleanup_after, 4);
    } else {
        let last = (index - 1) as nat;
        lemma_clears_in_turn(cleanup, replies, last);
        assert(replies[start + 2 * (last as int)] is Ok);
        reveal_with_fuel(cleanup_after, 3);
        assert(start + 2 * index == (start + 2 * last) + 2);
    }
}

/// A cleanup ends without a failure if and only if the task leaves the queue alone or
/// was removed from it.
pub proof fn law_clean_outcome(cleanup: Cleanup, replies: Seq<Result<(), String>>, count: nat)
    requires
        cleanup.stage is CleaningTask,
        count <= replies.len(),
        cleanup_after(cleanup, replies, count).stage is Finished,
    ensures
        cleanup_after(cleanup, replies, count).stage->outcome is Ok
            <==> cleanup.bypass_task_queue || (count >= 3 && replies[1] is Ok && replies[2] is Ok),
    decreases count,
{
    reveal_with_fuel(cleanup_after, 4);
    if count > 3 {
        lemma_cleanup_progress(cleanup, replies, (count - 1) as nat);
        let before = cleanup_after(cleanup, replies, (count - 1) as nat);
        if before.stage is Finished {
            law_clean_outcome(cleanup, replies, (count - 1) as nat);
        } else if before.stage is AwaitingPop {
            lemma_awaiting_pop(cleanup, replies, (count - 1) as nat);
        } else {
            lemma_clearing(cleanup, replies, (count - 1) as nat);
        }
    }
}

/// A cleanup begins with the task's own, whose failure does not matter. A task that leaves
/// the task queue alone is then done with; of any other, the removal from its queue is
/// proposed, under its own identifier and with whether it succeeded, and awaited.
pub proof fn law_cleanup_removes_its_task(cleanup: Cleanup, replies: Seq<Result<(), String>>)
    requires
        cleanup.stage is CleaningTask,
        replies.len() >= 3,
    ensures
        cleanup.next_action() == Some(CleanupAction::CleanTask),
        cleanup.bypass_task_queue ==> cleanup_after(cleanup, replies, 1).next_action() is None,
        !cleanup.bypass_task_queue ==> {
            &&& cleanup_after(cleanup, replies, 1).next_action() matches Some(
                CleanupAction::ProposePop { task_id, success },
            )
            &&& task_id == cleanup.task_id
            &&& success == cleanup.success
            &&& replies[1] is Ok ==> cleanup_after(cleanup, replies, 2).next_action() == Some(
                CleanupAction::AwaitPop,
            )
            &&& replies[1] is Ok && replies[2] is Ok ==> cleanup_after(
                cleanup,
                replies,
                3,
            ).next_action() is None
        },
{
    reveal_with_fuel(cleanup_after, 4);
}

/// The clearing of a queue that could be proposed is awaited, for the same account. One
/// that could not be proposed ends the cleanup, with that failure.
pub proof fn law_clearing_is_awaited(
    cleanup: Cleanup,
    replies: Seq<Result<(), String>>,
    count: nat,
    account_id: AccountId,
)
    requires
        cleanup.stage is CleaningTask,
        count < replies.len(),
        cleanup_after(cleanup, replies, count).next_action() == Some(
            CleanupAction::ProposeClear { account_id },
        ),
    ensures
        match replies[count as int] {
            Ok(_) => cleanup_after(cleanup, replies, count + 1).next_action() == Some(
                CleanupAction::AwaitClear { account_id },
            ),
            Err(failure) => cleanup_after(cleanup, replies, count + 1).stage
                == (CleanupStage::Finished { outcome: Err(failure) }),
        },
{
    lemma_cleanup_progress(cleanup, replies, count);
}

/// Whether a failure is that of the latest call that failed, the task's own cleanup aside.
pub open spec fn is_latest_failure(
    replies: Seq<Result<(), String>>,
    count: nat,
    failure: String,
) -> bool {
    exists|index: int|
        1 <= index < count && #[trigger] replies[index] == Err::<(), String>(failure) && forall|
            later: int,
        |
            index < later < count ==> #[trigger] replies[later] is Ok
}

/// The failure that a cleanup keeps is the latest.
proof fn lemma_keeps_latest_failure(
    cleanup: Cleanup,
    replies: Seq<Result<(), String>>,
    count: nat,
)
    requires
        cleanup.stage is CleaningTask,
        count <= replies.len(),
    ensures
        match cleanup_after(cleanup, replies, count).stage {
            CleanupStage::Clearing { failure, .. }
            | CleanupStage::AwaitingClear { failure, .. } => is_latest_failure(
                replies,
                count,
                failure,
            ),
            CleanupStage::Finished { outcome: Err(failure) } => cleanup_after(
                cleanup,
                replies,
                (count - 1) as nat,
            ).stage is Finished || is_latest_failure(replies, count, failure),
            _ => true,
        },
    decreases count,
{
    if count > 0 {
        let last = (count - 1) as nat;
        lemma_keeps_latest_failure(cleanup, replies, last);
        lemma_cleanup_progress(cleanup, replies, last);
        let before = cleanup_after(cleanup, replies, last);
        if last == 0 {
            reveal_with_fuel(cleanup_after, 2);
        }
        match (before.stage, replies[last as int]) {
            (CleanupStage::Clearing { failure, .. }, Ok(_))
            | (CleanupStage::AwaitingClear { failure, .. }, Ok(_)) => {
                let index = choose|index: int|
                    1 <= index < last && #[trigger] replies[index] == Err::<(), String>(failure)
                        && forall|later: int|
                        index < later < last ==> #[trigger] replies[later] is Ok;
                assert(replies[index] == Err::<(), String>(failure));
            },
            (_, Err(failure)) => {
                assert(replies[last as int] == Err::<(), String>(failure));
            },
            _ => {},
        }
    }
}

/// A cleanup that ends with a failure ends with that of the latest call that failed.
pub proof fn law_cleanup_tells_the_latest_failure(
    cleanup: Cleanup,
    replies: Seq<Result<(), String>>,
    count: nat,
    failure: String,
)
    requires
        cleanup.stage is CleaningTask,
        0 < count <= replies.len(),
        !(cleanup_after(cleanup, replies, (count - 1) as nat).stage is Finished),
        cleanup_after(cleanup, replies, count).stage == (CleanupStage::Finished {
            outcome: Err(failure),
        }),
    ensures
        is_latest_failure(replies, count, failure),
{
    lemma_keeps_latest_failure(cleanup, replies, count);
}

} // verus!
