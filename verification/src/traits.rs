//! What a task offers to the driver that runs it.
use vstd::prelude::*;

use crate::json::{max_depth, nests_within, value_json, value_text, Json};

verus! {

/// The depth to which the persisted form of a task state may nest: all but the one level
/// that the wrapper of the state takes.
pub open spec fn state_depth() -> nat {
    (max_depth() - 1) as nat
}

/// The state of a task through its execution.
///
/// The states of a task are ordered by their phase, and the task is committed
/// from its commit point on.
pub trait TaskState: Sized + View {
    /// The place of a state in the order of the task's states.
    spec fn phase_of(state: Self::V) -> u8;

    /// The state at which the task commits.
    spec fn committing() -> Self::V;

    /// Whether the task is done in a state.
    spec fn completed_in(state: Self::V) -> bool;

    /// The name that users see of a state.
    spec fn name_of(state: Self::V) -> Seq<char>;

    /// The persisted form of a state.
    spec fn written(state: Self::V) -> Json;

    /// The text of the persisted form of a state.
    spec fn text_of(state: Self::V) -> Seq<char>;

    /// The state that a persisted form stands for.
    spec fn read(json: Json) -> Option<Self::V>;

    /// The place of the state in the order of the task's states.
    fn phase(&self) -> (res: u8)
        ensures
            res == Self::phase_of(self@),
    ;

    /// The state at which the task commits.
    fn commit_point() -> (res: Self)
        ensures
            res@ == Self::committing(),
    ;

    /// Whether two states are the same.
    fn same(&self, other: &Self) -> (res: bool)
        ensures
            res == (self@ == other@),
    ;

    /// Whether the task is done.
    fn completed(&self) -> (res: bool)
        ensures
            res == Self::completed_in(self@),
    ;

    /// The name that users see of the state.
    fn to_string(&self) -> (res: String)
        ensures
            res@ == Self::name_of(self@),
    ;

    /// The persisted form of the state, which [`Self::from_json`] reads back.
    fn to_json(&self) -> (res: serde_json::Value)
        ensures
            value_json(res) == Self::written(self@),
            value_text(res) == Self::text_of(self@),
            Self::read(value_json(res)) == Some(self@),
            nests_within(value_json(res), state_depth()),
    ;

    /// The state that a persisted form stands for.
    fn from_json(value: &serde_json::Value) -> (res: Option<Self>)
        ensures
            match res {
                Some(state) => Self::read(value_json(*value)) == Some(state@),
                None => Self::read(value_json(*value)) is None,
            },
    ;

    /// Whether the task has committed: whether the state is at the commit point
    /// or past it.
    fn committed(&self) -> (res: bool)
        ensures
            res == (Self::phase_of(self@) >= Self::phase_of(Self::committing())),
    {
        self.phase() >= Self::commit_point().phase()
    }
}

/// Whether the task has committed in a state.
pub open spec fn committed_in<T: TaskState>(state: T::V) -> bool {
    T::phase_of(state) >= T::phase_of(T::committing())
}

/// An error of a task.
pub trait TaskError: Sized {
    /// Whether the failed step is worth another try.
    spec fn spec_retryable(&self) -> bool;

    /// Whether the failed step is worth another try.
    fn retryable(&self) -> (res: bool)
        ensures
            res == self.spec_retryable(),
    ;
}

/// A task that the driver runs.
///
/// The steps of a task and its cleanup await outside services. What is here is
/// what the driver needs between them.
pub trait Task: Sized {
    /// The state of the task
    type State: TaskState;

    /// The error with which a step of the task fails
    type Error: TaskError;

    /// What the task is made from
    type Descriptor;

    /// The task that a descriptor describes.
    spec fn spec_new(descriptor: Self::Descriptor) -> Result<Self, Self::Error>;

    /// The task after it took up a persisted state.
    spec fn spec_restored(self, state: Self::State) -> Self;

    /// The state of the task.
    spec fn spec_task_state(self) -> Self::State;

    /// The name of the task.
    spec fn spec_name(self) -> Seq<char>;

    /// Whether the task leaves the task queue alone.
    spec fn spec_bypass_task_queue(self) -> bool;

    /// Makes the task that a descriptor describes.
    fn new(descriptor: Self::Descriptor) -> (res: Result<Self, Self::Error>)
        ensures
            res == Self::spec_new(descriptor),
    ;

    /// Takes up a persisted state.
    fn restore_state(&mut self, state: Self::State)
        ensures
            *final(self) == old(self).spec_restored(state),
            final(self).spec_task_state() == state,
    ;

    /// The state of the task.
    fn task_state(&self) -> (res: Self::State)
        ensures
            res == self.spec_task_state(),
    ;

    /// The name of the task.
    fn name(&self) -> (res: String)
        ensures
            res@ == self.spec_name(),
    ;

    /// Whether the task leaves the task queue alone.
    fn bypass_task_queue(&self) -> (res: bool)
        ensures
            res == self.spec_bypass_task_queue(),
    ;

    /// Whether the task is done.
    fn completed(&self) -> (res: bool)
        ensures
            res == Self::State::completed_in(self.spec_task_state()@),
    {
        self.task_state().completed()
    }

    /// Makes the task that a descriptor describes, and has it take up the
    /// persisted state where there is one.
    fn restore(descriptor: Self::Descriptor, restored_state: Option<Self::State>) -> (res: Result<
        Self,
        Self::Error,
    >)
        ensures
            match (Self::spec_new(descriptor), restored_state) {
                (Ok(task), Some(state)) => res == Ok::<Self, Self::Error>(task.spec_restored(state))
                    && res->Ok_0.spec_task_state() == state,
                (fresh, _) => res == fresh,
            },
    {
        match Self::new(descriptor) {
            Ok(fresh) => {
                let mut task = fresh;
                match restored_state {
                    Some(state) => task.restore_state(state),
                    None => {},
                }
                Ok(task)
            },
            Err(error) => Err(error),
        }
    }
}

} // verus!
