//! Task state management
use vstd::prelude::*;

use crate::json::{
    as_object, comes_first, drop_empty_payload, empty_map, entry_keys, field, field_of, in_braces,
    insert_entry, is_first, json_parsed, lemma_nests_within_more, map_keys, max_depth, member,
    nests_within, object_value, parse_json, print_json, quoted, tag_field, tag_in, text_field,
    text_in, text_value, value_json, value_text, with_entry, without_empty_payload, Json,
};
use crate::settlement::state::SettleInternalMatchTaskState;
use crate::traits::{committed_in, state_depth, TaskState};

verus! {

/// The state types of the tasks that are defined elsewhere.
pub trait TaskStates: Sized {
    /// The state of a create new account task
    type CreateNewAccount: TaskState;

    /// The state of a node startup task
    type NodeStartup: TaskState;

    /// The state of a deposit task
    type Deposit: TaskState;

    /// The state of a create balance task
    type CreateBalance: TaskState;

    /// The state of a create order task
    type CreateOrder: TaskState;

    /// The state of a cancel order task
    type CancelOrder: TaskState;

    /// The state of a refresh account task
    type RefreshAccount: TaskState;

    /// The state of a settle external match task
    type SettleExternalMatch: TaskState;

    /// The state of a settle private match task
    type SettlePrivateMatch: TaskState;

    /// The state of a withdraw task
    type Withdraw: TaskState;

}

/// A wrapper that allows the states of all tasks to be stored alike.
#[derive(Debug)]
pub enum TaskStateWrapper<S: TaskStates> {
    /// The state of a create new account task
    CreateNewAccount(S::CreateNewAccount),
    /// The state of a node startup task
    NodeStartup(S::NodeStartup),
    /// The state of a deposit task
    Deposit(S::Deposit),
    /// The state of a create balance task
    CreateBalance(S::CreateBalance),
    /// The state of a create order task
    CreateOrder(S::CreateOrder),
    /// The state of a cancel order task
    CancelOrder(S::CancelOrder),
    /// The state of a refresh account task
    RefreshAccount(S::RefreshAccount),
    /// The state of a settle internal match task
    SettleInternalMatch(SettleInternalMatchTaskState),
    /// The state of a settle external match task
    SettleExternalMatch(S::SettleExternalMatch),
    /// The state of a settle private match task
    SettlePrivateMatch(S::SettlePrivateMatch),
    /// The state of a withdraw task
    Withdraw(S::Withdraw),
}

/// The model of a [`TaskStateWrapper`].
pub enum TaskStateView<S: TaskStates> {
    CreateNewAccount(<S::CreateNewAccount as View>::V),
    NodeStartup(<S::NodeStartup as View>::V),
    Deposit(<S::Deposit as View>::V),
    CreateBalance(<S::CreateBalance as View>::V),
    CreateOrder(<S::CreateOrder as View>::V),
    CancelOrder(<S::CancelOrder as View>::V),
    RefreshAccount(<S::RefreshAccount as View>::V),
    SettleInternalMatch(<SettleInternalMatchTaskState as View>::V),
    SettleExternalMatch(<S::SettleExternalMatch as View>::V),
    SettlePrivateMatch(<S::SettlePrivateMatch as View>::V),
    Withdraw(<S::Withdraw as View>::V),
}

impl<S: TaskStates> View for TaskStateWrapper<S> {
    type V = TaskStateView<S>;

    open spec fn view(&self) -> TaskStateView<S> {
        match self {
            TaskStateWrapper::CreateNewAccount(state) => TaskStateView::CreateNewAccount(state@),
            TaskStateWrapper::NodeStartup(state) => TaskStateView::NodeStartup(state@),
            TaskStateWrapper::Deposit(state) => TaskStateView::Deposit(state@),
            TaskStateWrapper::CreateBalance(state) => TaskStateView::CreateBalance(state@),
            TaskStateWrapper::CreateOrder(state) => TaskStateView::CreateOrder(state@),
            TaskStateWrapper::CancelOrder(state) => TaskStateView::CancelOrder(state@),
            TaskStateWrapper::RefreshAccount(state) => TaskStateView::RefreshAccount(state@),
            TaskStateWrapper::SettleInternalMatch(state) => TaskStateView::SettleInternalMatch(state@),
            TaskStateWrapper::SettleExternalMatch(state) => TaskStateView::SettleExternalMatch(state@),
            TaskStateWrapper::SettlePrivateMatch(state) => TaskStateView::SettlePrivateMatch(state@),
            TaskStateWrapper::Withdraw(state) => TaskStateView::Withdraw(state@),
        }
    }
}

impl<S: TaskStates> Clone for TaskStateWrapper<S> where
    S::CreateNewAccount: Clone,
    S::NodeStartup: Clone,
    S::Deposit: Clone,
    S::CreateBalance: Clone,
    S::CreateOrder: Clone,
    S::CancelOrder: Clone,
    S::RefreshAccount: Clone,
    S::SettleExternalMatch: Clone,
    S::SettlePrivateMatch: Clone,
    S::Withdraw: Clone,
{
    fn clone(&self) -> (res: Self)
        ensures
            match (*self, res) {
                (TaskStateWrapper::CreateNewAccount(state), TaskStateWrapper::CreateNewAccount(copy)) => {
                    cloned(state, copy)
                },
                (TaskStateWrapper::NodeStartup(state), TaskStateWrapper::NodeStartup(copy)) => {
                    cloned(state, copy)
                },
                (TaskStateWrapper::Deposit(state), TaskStateWrapper::Deposit(copy)) => {
                    cloned(state, copy)
                },
                (TaskStateWrapper::CreateBalance(state), TaskStateWrapper::CreateBalance(copy)) => {
                    cloned(state, copy)
                },
                (TaskStateWrapper::CreateOrder(state), TaskStateWrapper::CreateOrder(copy)) => {
                    cloned(state, copy)
                },
                (TaskStateWrapper::CancelOrder(state), TaskStateWrapper::CancelOrder(copy)) => {
                    cloned(state, copy)
                },
                (TaskStateWrapper::RefreshAccount(state), TaskStateWrapper::RefreshAccount(copy)) => {
                    cloned(state, copy)
                },
                (TaskStateWrapper::SettleInternalMatch(state), TaskStateWrapper::SettleInternalMatch(copy)) => {
                    cloned(state, copy)
                },
                (TaskStateWrapper::SettleExternalMatch(state), TaskStateWrapper::SettleExternalMatch(copy)) => {
                    cloned(state, copy)
                },
                (TaskStateWrapper::SettlePrivateMatch(state), TaskStateWrapper::SettlePrivateMatch(copy)) => {
                    cloned(state, copy)
                },
                (TaskStateWrapper::Withdraw(state), TaskStateWrapper::Withdraw(copy)) => {
                    cloned(state, copy)
                },
                _ => false,
            },
    {
        match self {
            TaskStateWrapper::CreateNewAccount(state) => {
                TaskStateWrapper::CreateNewAccount(state.clone())
            },
            TaskStateWrapper::NodeStartup(state) => {
                TaskStateWrapper::NodeStartup(state.clone())
            },
            TaskStateWrapper::Deposit(state) => {
                TaskStateWrapper::Deposit(state.clone())
            },
            TaskStateWrapper::CreateBalance(state) => {
                TaskStateWrapper::CreateBalance(state.clone())
            },
            TaskStateWrapper::CreateOrder(state) => {
                TaskStateWrapper::CreateOrder(state.clone())
            },
            TaskStateWrapper::CancelOrder(state) => {
                TaskStateWrapper::CancelOrder(state.clone())
            },
            TaskStateWrapper::RefreshAccount(state) => {
                TaskStateWrapper::RefreshAccount(state.clone())
            },
            TaskStateWrapper::SettleInternalMatch(state) => {
                TaskStateWrapper::SettleInternalMatch(state.clone())
            },
            TaskStateWrapper::SettleExternalMatch(state) => {
                TaskStateWrapper::SettleExternalMatch(state.clone())
            },
            TaskStateWrapper::SettlePrivateMatch(state) => {
                TaskStateWrapper::SettlePrivateMatch(state.clone())
            },
            TaskStateWrapper::Withdraw(state) => {
                TaskStateWrapper::Withdraw(state.clone())
            },
        }
    }
}

impl<S: TaskStates> TaskStateView<S> {
    /// Whether the task has committed.
    pub open spec fn committed(self) -> bool {
        match self {
            TaskStateView::CreateNewAccount(state) => committed_in::<S::CreateNewAccount>(state),
            TaskStateView::NodeStartup(state) => committed_in::<S::NodeStartup>(state),
            TaskStateView::Deposit(state) => committed_in::<S::Deposit>(state),
            TaskStateView::CreateBalance(state) => committed_in::<S::CreateBalance>(state),
            TaskStateView::CreateOrder(state) => committed_in::<S::CreateOrder>(state),
            TaskStateView::CancelOrder(state) => committed_in::<S::CancelOrder>(state),
            TaskStateView::RefreshAccount(state) => committed_in::<S::RefreshAccount>(state),
            TaskStateView::SettleInternalMatch(state) => committed_in::<SettleInternalMatchTaskState>(state),
            TaskStateView::SettleExternalMatch(state) => committed_in::<S::SettleExternalMatch>(state),
            TaskStateView::SettlePrivateMatch(state) => committed_in::<S::SettlePrivateMatch>(state),
            TaskStateView::Withdraw(state) => committed_in::<S::Withdraw>(state),
        }
    }

    /// Whether the task is at its commit point.
    pub open spec fn is_committing(self) -> bool {
        match self {
            TaskStateView::CreateNewAccount(state) => state == S::CreateNewAccount::committing(),
            TaskStateView::NodeStartup(state) => state == S::NodeStartup::committing(),
            TaskStateView::Deposit(state) => state == S::Deposit::committing(),
            TaskStateView::CreateBalance(state) => state == S::CreateBalance::committing(),
            TaskStateView::CreateOrder(state) => state == S::CreateOrder::committing(),
            TaskStateView::CancelOrder(state) => state == S::CancelOrder::committing(),
            TaskStateView::RefreshAccount(state) => state == S::RefreshAccount::committing(),
            TaskStateView::SettleInternalMatch(state) => state == SettleInternalMatchTaskState::committing(),
            TaskStateView::SettleExternalMatch(state) => state == S::SettleExternalMatch::committing(),
            TaskStateView::SettlePrivateMatch(state) => state == S::SettlePrivateMatch::committing(),
            TaskStateView::Withdraw(state) => state == S::Withdraw::committing(),
        }
    }

    /// Whether the task is done.
    pub open spec fn completed(self) -> bool {
        match self {
            TaskStateView::CreateNewAccount(state) => S::CreateNewAccount::completed_in(state),
            TaskStateView::NodeStartup(state) => S::NodeStartup::completed_in(state),
            TaskStateView::Deposit(state) => S::Deposit::completed_in(state),
            TaskStateView::CreateBalance(state) => S::CreateBalance::completed_in(state),
            TaskStateView::CreateOrder(state) => S::CreateOrder::completed_in(state),
            TaskStateView::CancelOrder(state) => S::CancelOrder::completed_in(state),
            TaskStateView::RefreshAccount(state) => S::RefreshAccount::completed_in(state),
            TaskStateView::SettleInternalMatch(state) => SettleInternalMatchTaskState::completed_in(state),
            TaskStateView::SettleExternalMatch(state) => S::SettleExternalMatch::completed_in(state),
            TaskStateView::SettlePrivateMatch(state) => S::SettlePrivateMatch::completed_in(state),
            TaskStateView::Withdraw(state) => S::Withdraw::completed_in(state),
        }
    }

    /// Whether consensus is awaited on a transition to the state.
    pub open spec fn awaits_consensus(self) -> bool {
        self.is_committing() || self.completed()
    }

    /// The place of the state in the order of its task's states.
    pub open spec fn phase(self) -> u8 {
        match self {
            TaskStateView::CreateNewAccount(state) => S::CreateNewAccount::phase_of(state),
            TaskStateView::NodeStartup(state) => S::NodeStartup::phase_of(state),
            TaskStateView::Deposit(state) => S::Deposit::phase_of(state),
            TaskStateView::CreateBalance(state) => S::CreateBalance::phase_of(state),
            TaskStateView::CreateOrder(state) => S::CreateOrder::phase_of(state),
            TaskStateView::CancelOrder(state) => S::CancelOrder::phase_of(state),
            TaskStateView::RefreshAccount(state) => S::RefreshAccount::phase_of(state),
            TaskStateView::SettleInternalMatch(state) => SettleInternalMatchTaskState::phase_of(state),
            TaskStateView::SettleExternalMatch(state) => S::SettleExternalMatch::phase_of(state),
            TaskStateView::SettlePrivateMatch(state) => S::SettlePrivateMatch::phase_of(state),
            TaskStateView::Withdraw(state) => S::Withdraw::phase_of(state),
        }
    }

    /// The name that users see of the state.
    pub open spec fn name(self) -> Seq<char> {
        match self {
            TaskStateView::CreateNewAccount(state) => S::CreateNewAccount::name_of(state),
            TaskStateView::NodeStartup(state) => S::NodeStartup::name_of(state),
            TaskStateView::Deposit(state) => S::Deposit::name_of(state),
            TaskStateView::CreateBalance(state) => S::CreateBalance::name_of(state),
            TaskStateView::CreateOrder(state) => S::CreateOrder::name_of(state),
            TaskStateView::CancelOrder(state) => S::CancelOrder::name_of(state),
            TaskStateView::RefreshAccount(state) => S::RefreshAccount::name_of(state),
            TaskStateView::SettleInternalMatch(state) => SettleInternalMatchTaskState::name_of(state),
            TaskStateView::SettleExternalMatch(state) => S::SettleExternalMatch::name_of(state),
            TaskStateView::SettlePrivateMatch(state) => S::SettlePrivateMatch::name_of(state),
            TaskStateView::Withdraw(state) => S::Withdraw::name_of(state),
        }
    }

    /// The name of the kind of task whose state this is.
    pub open spec fn task_type(self) -> Seq<char> {
        match self {
            TaskStateView::CreateNewAccount(_) => "CreateNewAccount"@,
            TaskStateView::NodeStartup(_) => "NodeStartup"@,
            TaskStateView::Deposit(_) => "Deposit"@,
            TaskStateView::CreateBalance(_) => "CreateBalance"@,
            TaskStateView::CreateOrder(_) => "CreateOrder"@,
            TaskStateView::CancelOrder(_) => "CancelOrder"@,
            TaskStateView::RefreshAccount(_) => "RefreshAccount"@,
            TaskStateView::SettleInternalMatch(_) => "SettleInternalMatch"@,
            TaskStateView::SettleExternalMatch(_) => "SettleExternalMatch"@,
            TaskStateView::SettlePrivateMatch(_) => "SettlePrivateMatch"@,
            TaskStateView::Withdraw(_) => "Withdraw"@,
        }
    }

    /// The persisted form of the state alone.
    pub open spec fn state_json(self) -> Json {
        match self {
            TaskStateView::CreateNewAccount(state) => S::CreateNewAccount::written(state),
            TaskStateView::NodeStartup(state) => S::NodeStartup::written(state),
            TaskStateView::Deposit(state) => S::Deposit::written(state),
            TaskStateView::CreateBalance(state) => S::CreateBalance::written(state),
            TaskStateView::CreateOrder(state) => S::CreateOrder::written(state),
            TaskStateView::CancelOrder(state) => S::CancelOrder::written(state),
            TaskStateView::RefreshAccount(state) => S::RefreshAccount::written(state),
            TaskStateView::SettleInternalMatch(state) => SettleInternalMatchTaskState::written(state),
            TaskStateView::SettleExternalMatch(state) => S::SettleExternalMatch::written(state),
            TaskStateView::SettlePrivateMatch(state) => S::SettlePrivateMatch::written(state),
            TaskStateView::Withdraw(state) => S::Withdraw::written(state),
        }
    }

    /// The text of the persisted form of the state alone.
    pub open spec fn state_text(self) -> Seq<char> {
        match self {
            TaskStateView::CreateNewAccount(state) => S::CreateNewAccount::text_of(state),
            TaskStateView::NodeStartup(state) => S::NodeStartup::text_of(state),
            TaskStateView::Deposit(state) => S::Deposit::text_of(state),
            TaskStateView::CreateBalance(state) => S::CreateBalance::text_of(state),
            TaskStateView::CreateOrder(state) => S::CreateOrder::text_of(state),
            TaskStateView::CancelOrder(state) => S::CancelOrder::text_of(state),
            TaskStateView::RefreshAccount(state) => S::RefreshAccount::text_of(state),
            TaskStateView::SettleInternalMatch(state) => SettleInternalMatchTaskState::text_of(state),
            TaskStateView::SettleExternalMatch(state) => S::SettleExternalMatch::text_of(state),
            TaskStateView::SettlePrivateMatch(state) => S::SettlePrivateMatch::text_of(state),
            TaskStateView::Withdraw(state) => S::Withdraw::text_of(state),
        }
    }

    /// The text of the persisted form.
    pub open spec fn text(self) -> Seq<char> {
        let entries = with_entry(seq![], "task_type"@, quoted(self.task_type()));
        in_braces(with_entry(entries, "state"@, self.state_text()))
    }

    /// The persisted form of the state together with the kind of its task.
    pub open spec fn json(self) -> Json {
        Json::Object(
            map![
                "task_type"@ => Json::Text(self.task_type()),
                "state"@ => self.state_json(),
            ],
            seq!["task_type"@, "state"@],
        )
    }

    /// The state of a task of the given kind that a persisted form stands for.
    pub open spec fn from_state_json(task_type: Seq<char>, json: Json) -> Result<
        TaskStateView<S>,
        DecodeFailure,
    > {
        if task_type == "CreateNewAccount"@ {
            match S::CreateNewAccount::read(json) {
                Some(state) => Ok(TaskStateView::CreateNewAccount(state)),
                None => Err(DecodeFailure::State),
            }
        } else if task_type == "NodeStartup"@ {
            match S::NodeStartup::read(json) {
                Some(state) => Ok(TaskStateView::NodeStartup(state)),
                None => Err(DecodeFailure::State),
            }
        } else if task_type == "Deposit"@ {
            match S::Deposit::read(json) {
                Some(state) => Ok(TaskStateView::Deposit(state)),
                None => Err(DecodeFailure::State),
            }
        } else if task_type == "CreateBalance"@ {
            match S::CreateBalance::read(json) {
                Some(state) => Ok(TaskStateView::CreateBalance(state)),
                None => Err(DecodeFailure::State),
            }
        } else if task_type == "CreateOrder"@ {
            match S::CreateOrder::read(json) {
                Some(state) => Ok(TaskStateView::CreateOrder(state)),
                None => Err(DecodeFailure::State),
            }
        } else if task_type == "CancelOrder"@ {
            match S::CancelOrder::read(json) {
                Some(state) => Ok(TaskStateView::CancelOrder(state)),
                None => Err(DecodeFailure::State),
            }
        } else if task_type == "RefreshAccount"@ {
            match S::RefreshAccount::read(json) {
                Some(state) => Ok(TaskStateView::RefreshAccount(state)),
                None => Err(DecodeFailure::State),
            }
        } else if task_type == "SettleInternalMatch"@ {
            match SettleInternalMatchTaskState::read(json) {
                Some(state) => Ok(TaskStateView::SettleInternalMatch(state)),
                None => Err(DecodeFailure::State),
            }
        } else if task_type == "SettleExternalMatch"@ {
            match S::SettleExternalMatch::read(json) {
                Some(state) => Ok(TaskStateView::SettleExternalMatch(state)),
                None => Err(DecodeFailure::State),
            }
        } else if task_type == "SettlePrivateMatch"@ {
            match S::SettlePrivateMatch::read(json) {
                Some(state) => Ok(TaskStateView::SettlePrivateMatch(state)),
                None => Err(DecodeFailure::State),
            }
        } else if task_type == "Withdraw"@ {
            match S::Withdraw::read(json) {
                Some(state) => Ok(TaskStateView::Withdraw(state)),
                None => Err(DecodeFailure::State),
            }
        } else {
            Err(DecodeFailure::Envelope)
        }
    }

    /// The state of a task of the given kind that a persisted form which came before its
    /// kind stands for. There a state without a payload may also have an empty object under
    /// its name, in place of `null`.
    pub open spec fn from_early_json(task_type: Seq<char>, json: Json) -> Result<
        TaskStateView<S>,
        DecodeFailure,
    > {
        match (Self::from_state_json(task_type, json), without_empty_payload(json)) {
            (Err(DecodeFailure::State), Some(bare)) => Self::from_state_json(task_type, bare),
            (res, _) => res,
        }
    }

    /// The task state that a persisted form stands for.
    ///
    /// It is an object with the kind of the task and the state, in which other keys may
    /// stand, or an array of the two. In an object the kind is its name, or an object with
    /// `null` under its name; in an array it is its name.
    pub open spec fn from_json(json: Json) -> Result<TaskStateView<S>, DecodeFailure> {
        match json {
            Json::Object(entries, keys) => match (
                tag_in(field_of(json, "task_type"@, 0, 2)),
                field_of(json, "state"@, 1, 2),
            ) {
                (Some(task_type), Some(state)) => if comes_first(keys, "state"@, "task_type"@) {
                    Self::from_early_json(task_type, state)
                } else {
                    Self::from_state_json(task_type, state)
                },
                _ => Err(DecodeFailure::Envelope),
            },
            _ => match (
                text_in(field_of(json, "task_type"@, 0, 2)),
                field_of(json, "state"@, 1, 2),
            ) {
                (Some(task_type), Some(state)) => Self::from_state_json(task_type, state),
                _ => Err(DecodeFailure::Envelope),
            },
        }
    }

    /// The task state that a queued task carries, if it carries one.
    pub open spec fn from_queued(queued: QueuedTaskStateView) -> Result<
        Option<TaskStateView<S>>,
        DecodeFailure,
    > {
        match queued.execution_state() {
            Some(text) => match json_parsed(text) {
                Some(json) => match Self::from_json(json) {
                    Ok(state) => Ok(Some(state)),
                    Err(failure) => Err(failure),
                },
                None => Err(DecodeFailure::Syntax),
            },
            None => Ok(None),
        }
    }
}

/// Why a persisted task state cannot be decoded.
#[derive(Debug)]
pub enum TaskStateDecodeError {
    /// The payload is no JSON text
    Syntax(serde_json::Error),
    /// The payload does not say, for a known kind of task, what the state is
    Envelope,
    /// What the payload gives as the state is no state of the task
    State,
}

/// The model of a [`TaskStateDecodeError`].
pub enum DecodeFailure {
    Syntax,
    Envelope,
    State,
}

impl View for TaskStateDecodeError {
    type V = DecodeFailure;

    open spec fn view(&self) -> DecodeFailure {
        match self {
            TaskStateDecodeError::Syntax(_) => DecodeFailure::Syntax,
            TaskStateDecodeError::Envelope => DecodeFailure::Envelope,
            TaskStateDecodeError::State => DecodeFailure::State,
        }
    }
}

/// The state of a task as the task queue stores it.
#[derive(Debug)]
pub enum QueuedTaskState {
    /// The task waits for its turn
    Queued,
    /// The task is running
    Running {
        /// The name of the task's state
        state: String,
        /// Whether the task has committed
        committed: bool,
        /// The serialized task state, from which the task can be restored
        execution_state: Option<String>,
    },
    /// The task is done
    Completed,
    /// The task failed
    Failed,
}

/// The model of a [`QueuedTaskState`].
pub enum QueuedTaskStateView {
    Queued,
    Running { state: Seq<char>, committed: bool, execution_state: Option<Seq<char>> },
    Completed,
    Failed,
}

impl View for QueuedTaskState {
    type V = QueuedTaskStateView;

    open spec fn view(&self) -> QueuedTaskStateView {
        match self {
            QueuedTaskState::Queued => QueuedTaskStateView::Queued,
            QueuedTaskState::Running { state, committed, execution_state } => {
                QueuedTaskStateView::Running {
                    state: state@,
                    committed: *committed,
                    execution_state: match execution_state {
                        Some(text) => Some(text@),
                        None => None,
                    },
                }
            },
            QueuedTaskState::Completed => QueuedTaskStateView::Completed,
            QueuedTaskState::Failed => QueuedTaskStateView::Failed,
        }
    }
}

impl QueuedTaskStateView {
    /// The serialized task state of a running task.
    pub open spec fn execution_state(self) -> Option<Seq<char>> {
        match self {
            QueuedTaskStateView::Running { execution_state, .. } => execution_state,
            _ => None,
        }
    }

    /// Whether the queue has a running task down as committed.
    pub open spec fn committed(self) -> bool {
        match self {
            QueuedTaskStateView::Running { committed, .. } => committed,
            _ => false,
        }
    }
}

impl QueuedTaskState {
    /// Whether the queue has a running task down as committed.
    pub fn committed(&self) -> (res: bool)
        ensures
            res == self@.committed(),
    {
        match self {
            QueuedTaskState::Running { committed, .. } => *committed,
            _ => false,
        }
    }

    /// The serialized task state of a running task.
    pub fn execution_state(&self) -> (res: Option<&String>)
        ensures
            match (res, self@.execution_state()) {
                (Some(text), Some(expected)) => text@ == expected,
                (None, None) => true,
                _ => false,
            },
    {
        match self {
            QueuedTaskState::Running { execution_state: Some(text), .. } => Some(text),
            _ => None,
        }
    }

    /// Whether the task is running.
    pub fn is_running(&self) -> (res: bool)
        ensures
            res == (self@ is Running),
    {
        match self {
            QueuedTaskState::Running { .. } => true,
            _ => false,
        }
    }
}

/// The kinds of tasks have different names, and so have the parts of a payload.
pub(crate) proof fn lemma_task_types()
    ensures
        "CreateNewAccount"@.len() == 16,
        "NodeStartup"@.len() == 11,
        "NodeStartup"@[0] == 'N',
        "Deposit"@.len() == 7,
        "CreateBalance"@.len() == 13,
        "CreateOrder"@.len() == 11,
        "CreateOrder"@[0] == 'C',
        "CreateOrder"@[1] == 'r',
        "CancelOrder"@.len() == 11,
        "CancelOrder"@[0] == 'C',
        "CancelOrder"@[1] == 'a',
        "RefreshAccount"@.len() == 14,
        "SettleInternalMatch"@.len() == 19,
        "SettleInternalMatch"@[6] == 'I',
        "SettleExternalMatch"@.len() == 19,
        "SettleExternalMatch"@[6] == 'E',
        "SettlePrivateMatch"@.len() == 18,
        "Withdraw"@.len() == 8,
        "task_type"@.len() == 9,
        "state"@.len() == 5,
{
    reveal_strlit("CreateNewAccount");
    reveal_strlit("NodeStartup");
    reveal_strlit("Deposit");
    reveal_strlit("CreateBalance");
    reveal_strlit("CreateOrder");
    reveal_strlit("CancelOrder");
    reveal_strlit("RefreshAccount");
    reveal_strlit("SettleInternalMatch");
    reveal_strlit("SettleExternalMatch");
    reveal_strlit("SettlePrivateMatch");
    reveal_strlit("Withdraw");
    reveal_strlit("task_type");
    reveal_strlit("state");
}

impl<S: TaskStates> TaskStateWrapper<S> {
    /// Deserialize a typed task-state payload from a queued task state
    ///
    /// The payload is read as a JSON value first. So of a key that stands in an object
    /// more than once, the last entry counts, and a payload is no JSON text where any
    /// number in it is out of range.
    pub fn from_queued_task_state(queued: &QueuedTaskState) -> (res: Result<
        Option<Self>,
        TaskStateDecodeError,
    >)
        ensures
            match (res, TaskStateView::<S>::from_queued(queued@)) {
                (Ok(Some(state)), Ok(Some(expected))) => state@ == expected,
                (Ok(None), Ok(None)) => true,
                (Err(error), Err(expected)) => error@ == expected,
                _ => false,
            },
    {
        match queued.execution_state() {
            Some(serialized) => match parse_json(serialized.as_str()) {
                Ok(value) => match Self::from_json(&value) {
                    Ok(state) => Ok(Some(state)),
                    Err(error) => Err(error),
                },
                Err(error) => Err(TaskStateDecodeError::Syntax(error)),
            },
            None => Ok(None),
        }
    }

    /// The task state that a persisted form stands for.
    pub fn from_json(value: &serde_json::Value) -> (res: Result<Self, TaskStateDecodeError>)
        ensures
            match (res, TaskStateView::<S>::from_json(value_json(*value))) {
                (Ok(state), Ok(expected)) => state@ == expected,
                (Err(error), Err(expected)) => error@ == expected,
                _ => false,
            },
    {
        match as_object(value) {
            Some(entries) => match (tag_field(value, "task_type"), member(value, "state")) {
                (Some(task_type), Some(state)) => {
                    let keys = entry_keys(entries);
                    proof {
                        lemma_task_types();
                        assert(keys@.map_values(|key: String| key@) =~= map_keys(*entries));
                    }
                    if is_first(&keys, "state", "task_type") {
                        Self::from_early_json(&task_type, state)
                    } else {
                        Self::from_state_json(&task_type, state)
                    }
                },
                _ => Err(TaskStateDecodeError::Envelope),
            },
            None => match (text_field(value, "task_type", 0, 2), field(value, "state", 1, 2)) {
                (Some(task_type), Some(state)) => Self::from_state_json(&task_type, state),
                _ => Err(TaskStateDecodeError::Envelope),
            },
        }
    }

    /// The state of a task of the given kind that a persisted form which came before its
    /// kind stands for.
    fn from_early_json(task_type: &String, value: &serde_json::Value) -> (res: Result<
        Self,
        TaskStateDecodeError,
    >)
        ensures
            match (res, TaskStateView::<S>::from_early_json(task_type@, value_json(*value))) {
                (Ok(state), Ok(expected)) => state@ == expected,
                (Err(error), Err(expected)) => error@ == expected,
                _ => false,
            },
    {
        let res = Self::from_state_json(task_type, value);
        match (&res, drop_empty_payload(value)) {
            (Err(TaskStateDecodeError::State), Some(bare)) => Self::from_state_json(
                task_type,
                &bare,
            ),
            _ => res,
        }
    }

    /// The state of a task of the given kind that a persisted form stands for.
    fn from_state_json(task_type: &String, value: &serde_json::Value) -> (res: Result<
        Self,
        TaskStateDecodeError,
    >)
        ensures
            match (res, TaskStateView::<S>::from_state_json(task_type@, value_json(*value))) {
                (Ok(state), Ok(expected)) => state@ == expected,
                (Err(error), Err(expected)) => error@ == expected,
                _ => false,
            },
    {
        if *task_type == "CreateNewAccount".to_owned() {
            match S::CreateNewAccount::from_json(value) {
                Some(state) => Ok(TaskStateWrapper::CreateNewAccount(state)),
                None => Err(TaskStateDecodeError::State),
            }
        } else if *task_type == "NodeStartup".to_owned() {
            match S::NodeStartup::from_json(value) {
                Some(state) => Ok(TaskStateWrapper::NodeStartup(state)),
                None => Err(TaskStateDecodeError::State),
            }
        } else if *task_type == "Deposit".to_owned() {
            match S::Deposit::from_json(value) {
                Some(state) => Ok(TaskStateWrapper::Deposit(state)),
                None => Err(TaskStateDecodeError::State),
            }
        } else if *task_type == "CreateBalance".to_owned() {
            match S::CreateBalance::from_json(value) {
                Some(state) => Ok(TaskStateWrapper::CreateBalance(state)),
                None => Err(TaskStateDecodeError::State),
            }
        } else if *task_type == "CreateOrder".to_owned() {
            match S::CreateOrder::from_json(value) {
                Some(state) => Ok(TaskStateWrapper::CreateOrder(state)),
                None => Err(TaskStateDecodeError::State),
            }
        } else if *task_type == "CancelOrder".to_owned() {
            match S::CancelOrder::from_json(value) {
                Some(state) => Ok(TaskStateWrapper::CancelOrder(state)),
                None => Err(TaskStateDecodeError::State),
            }
        } else if *task_type == "RefreshAccount".to_owned() {
            match S::RefreshAccount::from_json(value) {
                Some(state) => Ok(TaskStateWrapper::RefreshAccount(state)),
                None => Err(TaskStateDecodeError::State),
            }
        } else if *task_type == "SettleInternalMatch".to_owned() {
            match SettleInternalMatchTaskState::from_json(value) {
                Some(state) => Ok(TaskStateWrapper::SettleInternalMatch(state)),
                None => Err(TaskStateDecodeError::State),
            }
        } else if *task_type == "SettleExternalMatch".to_owned() {
            match S::SettleExternalMatch::from_json(value) {
                Some(state) => Ok(TaskStateWrapper::SettleExternalMatch(state)),
                None => Err(TaskStateDecodeError::State),
            }
        } else if *task_type == "SettlePrivateMatch".to_owned() {
            match S::SettlePrivateMatch::from_json(value) {
                Some(state) => Ok(TaskStateWrapper::SettlePrivateMatch(state)),
                None => Err(TaskStateDecodeError::State),
            }
        } else if *task_type == "Withdraw".to_owned() {
            match S::Withdraw::from_json(value) {
                Some(state) => Ok(TaskStateWrapper::Withdraw(state)),
                None => Err(TaskStateDecodeError::State),
            }
        } else {
            Err(TaskStateDecodeError::Envelope)
        }
    }

    /// Whether the underlying state is committed or not
    pub fn committed(&self) -> (res: bool)
        ensures
            res == self@.committed(),
    {
        match self {
            TaskStateWrapper::CreateNewAccount(state) => state.committed(),
            TaskStateWrapper::NodeStartup(state) => state.committed(),
            TaskStateWrapper::Deposit(state) => state.committed(),
            TaskStateWrapper::CreateBalance(state) => state.committed(),
            TaskStateWrapper::CreateOrder(state) => state.committed(),
            TaskStateWrapper::CancelOrder(state) => state.committed(),
            TaskStateWrapper::RefreshAccount(state) => state.committed(),
            TaskStateWrapper::SettleInternalMatch(state) => state.committed(),
            TaskStateWrapper::SettleExternalMatch(state) => state.committed(),
            TaskStateWrapper::SettlePrivateMatch(state) => state.committed(),
            TaskStateWrapper::Withdraw(state) => state.committed(),
        }
    }

    /// Whether or not this state commits the task, i.e. is the first state that
    /// for which `committed` is true
    pub fn is_committing(&self) -> (res: bool)
        ensures
            res == self@.is_committing(),
    {
        match self {
            TaskStateWrapper::CreateNewAccount(state) => state.same(&S::CreateNewAccount::commit_point()),
            TaskStateWrapper::NodeStartup(state) => state.same(&S::NodeStartup::commit_point()),
            TaskStateWrapper::Deposit(state) => state.same(&S::Deposit::commit_point()),
            TaskStateWrapper::CreateBalance(state) => state.same(&S::CreateBalance::commit_point()),
            TaskStateWrapper::CreateOrder(state) => state.same(&S::CreateOrder::commit_point()),
            TaskStateWrapper::CancelOrder(state) => state.same(&S::CancelOrder::commit_point()),
            TaskStateWrapper::RefreshAccount(state) => state.same(&S::RefreshAccount::commit_point()),
            TaskStateWrapper::SettleInternalMatch(state) => state.same(&SettleInternalMatchTaskState::commit_point()),
            TaskStateWrapper::SettleExternalMatch(state) => state.same(&S::SettleExternalMatch::commit_point()),
            TaskStateWrapper::SettlePrivateMatch(state) => state.same(&S::SettlePrivateMatch::commit_point()),
            TaskStateWrapper::Withdraw(state) => state.same(&S::Withdraw::commit_point()),
        }
    }

    /// Whether the underlying state is completed or not
    pub fn completed(&self) -> (res: bool)
        ensures
            res == self@.completed(),
    {
        match self {
            TaskStateWrapper::CreateNewAccount(state) => state.completed(),
            TaskStateWrapper::NodeStartup(state) => state.completed(),
            TaskStateWrapper::Deposit(state) => state.completed(),
            TaskStateWrapper::CreateBalance(state) => state.completed(),
            TaskStateWrapper::CreateOrder(state) => state.completed(),
            TaskStateWrapper::CancelOrder(state) => state.completed(),
            TaskStateWrapper::RefreshAccount(state) => state.completed(),
            TaskStateWrapper::SettleInternalMatch(state) => state.completed(),
            TaskStateWrapper::SettleExternalMatch(state) => state.completed(),
            TaskStateWrapper::SettlePrivateMatch(state) => state.completed(),
            TaskStateWrapper::Withdraw(state) => state.completed(),
        }
    }

    /// The name that users see of the state.
    pub fn to_string(&self) -> (res: String)
        ensures
            res@ == self@.name(),
    {
        match self {
            TaskStateWrapper::CreateNewAccount(state) => state.to_string(),
            TaskStateWrapper::NodeStartup(state) => state.to_string(),
            TaskStateWrapper::Deposit(state) => state.to_string(),
            TaskStateWrapper::CreateBalance(state) => state.to_string(),
            TaskStateWrapper::CreateOrder(state) => state.to_string(),
            TaskStateWrapper::CancelOrder(state) => state.to_string(),
            TaskStateWrapper::RefreshAccount(state) => state.to_string(),
            TaskStateWrapper::SettleInternalMatch(state) => state.to_string(),
            TaskStateWrapper::SettleExternalMatch(state) => state.to_string(),
            TaskStateWrapper::SettlePrivateMatch(state) => state.to_string(),
            TaskStateWrapper::Withdraw(state) => state.to_string(),
        }
    }

    /// The name of the kind of task whose state this is.
    pub fn task_type(&self) -> (res: String)
        ensures
            res@ == self@.task_type(),
    {
        match self {
            TaskStateWrapper::CreateNewAccount(_) => "CreateNewAccount".to_owned(),
            TaskStateWrapper::NodeStartup(_) => "NodeStartup".to_owned(),
            TaskStateWrapper::Deposit(_) => "Deposit".to_owned(),
            TaskStateWrapper::CreateBalance(_) => "CreateBalance".to_owned(),
            TaskStateWrapper::CreateOrder(_) => "CreateOrder".to_owned(),
            TaskStateWrapper::CancelOrder(_) => "CancelOrder".to_owned(),
            TaskStateWrapper::RefreshAccount(_) => "RefreshAccount".to_owned(),
            TaskStateWrapper::SettleInternalMatch(_) => "SettleInternalMatch".to_owned(),
            TaskStateWrapper::SettleExternalMatch(_) => "SettleExternalMatch".to_owned(),
            TaskStateWrapper::SettlePrivateMatch(_) => "SettlePrivateMatch".to_owned(),
            TaskStateWrapper::Withdraw(_) => "Withdraw".to_owned(),
        }
    }

    /// The persisted form of the state alone.
    fn state_to_json(&self) -> (res: serde_json::Value)
        ensures
            value_json(res) == self@.state_json(),
            value_text(res) == self@.state_text(),
            TaskStateView::<S>::from_state_json(self@.task_type(), value_json(res)) == Ok::<
                TaskStateView<S>,
                DecodeFailure,
            >(self@),
            nests_within(value_json(res), state_depth()),
    {
        proof {
            lemma_task_types();
        }
        match self {
            TaskStateWrapper::CreateNewAccount(state) => state.to_json(),
            TaskStateWrapper::NodeStartup(state) => state.to_json(),
            TaskStateWrapper::Deposit(state) => state.to_json(),
            TaskStateWrapper::CreateBalance(state) => state.to_json(),
            TaskStateWrapper::CreateOrder(state) => state.to_json(),
            TaskStateWrapper::CancelOrder(state) => state.to_json(),
            TaskStateWrapper::RefreshAccount(state) => state.to_json(),
            TaskStateWrapper::SettleInternalMatch(state) => state.to_json(),
            TaskStateWrapper::SettleExternalMatch(state) => state.to_json(),
            TaskStateWrapper::SettlePrivateMatch(state) => state.to_json(),
            TaskStateWrapper::Withdraw(state) => state.to_json(),
        }
    }

    /// The persisted form of the state together with the kind of its task, which
    /// [`Self::from_json`] reads back.
    pub fn to_json(&self) -> (res: serde_json::Value)
        ensures
            value_json(res) == self@.json(),
            value_text(res) == self@.text(),
            TaskStateView::<S>::from_json(value_json(res)) == Ok::<
                TaskStateView<S>,
                DecodeFailure,
            >(self@),
            nests_within(value_json(res), max_depth()),
    {
        let state = self.state_to_json();
        let ghost state_json = value_json(state);
        let mut entries = empty_map();
        insert_entry(&mut entries, "task_type".to_owned(), text_value(self.task_type()));
        insert_entry(&mut entries, "state".to_owned(), state);
        proof {
            lemma_task_types();
            lemma_nests_within_more(state_json, state_depth(), (max_depth() - 1) as nat);
            reveal_with_fuel(nests_within, 2);
            assert(map_keys(entries) =~= seq!["task_type"@, "state"@]);
        }
        object_value(entries)
    }
}

/// The state of a `T` that a queued task carries, if it carries one.
///
/// Which kind of task the payload names does not matter.
pub open spec fn decoded_state<T: TaskState>(queued: QueuedTaskStateView) -> Result<
    Option<T::V>,
    DecodeFailure,
> {
    match queued.execution_state() {
        Some(text) => match json_parsed(text) {
            Some(Json::Object(entries, _)) => if entries.dom().contains("state"@) {
                match T::read(entries["state"@]) {
                    Some(state) => Ok(Some(state)),
                    None => Err(DecodeFailure::State),
                }
            } else {
                Ok(None)
            },
            Some(_) => Ok(None),
            None => Err(DecodeFailure::Syntax),
        },
        None => Ok(None),
    }
}

/// Deserialize a concrete task-state payload from a queued task state
pub fn decode_task_state<T: TaskState>(queued: &QueuedTaskState) -> (res: Result<
    Option<T>,
    TaskStateDecodeError,
>)
    ensures
        match (res, decoded_state::<T>(queued@)) {
            (Ok(Some(state)), Ok(Some(expected))) => state@ == expected,
            (Ok(None), Ok(None)) => true,
            (Err(error), Err(expected)) => error@ == expected,
            _ => false,
        },
{
    match queued.execution_state() {
        Some(serialized) => match parse_json(serialized.as_str()) {
            Ok(wrapper) => match member(&wrapper, "state") {
                Some(inner) => match T::from_json(inner) {
                    Some(state) => Ok(Some(state)),
                    None => Err(TaskStateDecodeError::State),
                },
                None => Ok(None),
            },
            Err(error) => Err(TaskStateDecodeError::Syntax(error)),
        },
        None => Ok(None),
    }
}

/// Whether decoding the payload of a queued task as a state of the wrapped type
/// gives the wrapped state.
pub open spec fn decodes_to<S: TaskStates>(
    queued: QueuedTaskStateView,
    state: TaskStateView<S>,
) -> bool {
    match state {
        TaskStateView::CreateNewAccount(state) => decoded_state::<S::CreateNewAccount>(queued) == Ok::<
            Option<<S::CreateNewAccount as View>::V>,
            DecodeFailure,
        >(Some(state)),
        TaskStateView::NodeStartup(state) => decoded_state::<S::NodeStartup>(queued) == Ok::<
            Option<<S::NodeStartup as View>::V>,
            DecodeFailure,
        >(Some(state)),
        TaskStateView::Deposit(state) => decoded_state::<S::Deposit>(queued) == Ok::<
            Option<<S::Deposit as View>::V>,
            DecodeFailure,
        >(Some(state)),
        TaskStateView::CreateBalance(state) => decoded_state::<S::CreateBalance>(queued) == Ok::<
            Option<<S::CreateBalance as View>::V>,
            DecodeFailure,
        >(Some(state)),
        TaskStateView::CreateOrder(state) => decoded_state::<S::CreateOrder>(queued) == Ok::<
            Option<<S::CreateOrder as View>::V>,
            DecodeFailure,
        >(Some(state)),
        TaskStateView::CancelOrder(state) => decoded_state::<S::CancelOrder>(queued) == Ok::<
            Option<<S::CancelOrder as View>::V>,
            DecodeFailure,
        >(Some(state)),
        TaskStateView::RefreshAccount(state) => decoded_state::<S::RefreshAccount>(queued) == Ok::<
            Option<<S::RefreshAccount as View>::V>,
            DecodeFailure,
        >(Some(state)),
        TaskStateView::SettleInternalMatch(state) => decoded_state::<SettleInternalMatchTaskState>(queued) == Ok::<
            Option<<SettleInternalMatchTaskState as View>::V>,
            DecodeFailure,
        >(Some(state)),
        TaskStateView::SettleExternalMatch(state) => decoded_state::<S::SettleExternalMatch>(queued) == Ok::<
            Option<<S::SettleExternalMatch as View>::V>,
            DecodeFailure,
        >(Some(state)),
        TaskStateView::SettlePrivateMatch(state) => decoded_state::<S::SettlePrivateMatch>(queued) == Ok::<
            Option<<S::SettlePrivateMatch as View>::V>,
            DecodeFailure,
        >(Some(state)),
        TaskStateView::Withdraw(state) => decoded_state::<S::Withdraw>(queued) == Ok::<
            Option<<S::Withdraw as View>::V>,
            DecodeFailure,
        >(Some(state)),
    }
}

/// Whether a queued task records a state: it is running, shows the name of the state
/// and whether the task has committed, and carries as its payload the text of the state's
/// persisted form, from which both decoders give the state back.
pub open spec fn records<S: TaskStates>(
    queued: QueuedTaskStateView,
    state: TaskStateView<S>,
) -> bool {
    &&& match queued {
        QueuedTaskStateView::Running { state: name, committed, execution_state } => {
            &&& name == state.name()
            &&& committed == state.committed()
            &&& execution_state == Some(state.text())
            &&& json_parsed(state.text()) == Some(state.json())
        },
        _ => false,
    }
    &&& TaskStateView::<S>::from_queued(queued) == Ok::<Option<TaskStateView<S>>, DecodeFailure>(
        Some(state),
    )
    &&& decodes_to(queued, state)
}

impl<S: TaskStates> From<TaskStateWrapper<S>> for QueuedTaskState {
    /// The queued form of a running task in the given state.
    fn from(value: TaskStateWrapper<S>) -> (res: Self)
        ensures
            records(res@, value@),
    {
        proof {
            lemma_task_types();
        }
        let description = value.to_string();
        let committed = value.committed();
        let execution_state = Some(print_json(&value.to_json()).unwrap());
        QueuedTaskState::Running { state: description, committed, execution_state }
    }
}

impl<S: TaskStates> vstd::std_specs::convert::FromSpecImpl<TaskStateWrapper<S>> for QueuedTaskState {
    open spec fn obeys_from_spec() -> bool {
        false
    }

    open spec fn from_spec(value: TaskStateWrapper<S>) -> QueuedTaskState {
        arbitrary()
    }
}

impl<S: TaskStates> From<SettleInternalMatchTaskState> for TaskStateWrapper<S> {
    fn from(state: SettleInternalMatchTaskState) -> (res: Self) {
        TaskStateWrapper::SettleInternalMatch(state)
    }
}

impl<S: TaskStates> vstd::std_specs::convert::FromSpecImpl<SettleInternalMatchTaskState> for TaskStateWrapper<S> {
    open spec fn obeys_from_spec() -> bool {
        true
    }

    open spec fn from_spec(state: SettleInternalMatchTaskState) -> Self {
        TaskStateWrapper::SettleInternalMatch(state)
    }
}

/// The commit point is the first state in which a task has committed: no state before
/// it is committed, and every state from it on is.
pub proof fn law_commit_point_is_first_committed<S: TaskStates>(
    state: TaskStateView<S>,
    committing: TaskStateView<S>,
)
    requires
        committing.is_committing(),
        state.task_type() == committing.task_type(),
    ensures
        committing.committed(),
        state.committed() <==> state.phase() >= committing.phase(),
{
    lemma_task_types();
}

/// A state of a task that the task queue knows.
pub trait WrapTaskState<S: TaskStates>: TaskState {
    /// The state among the states of all tasks.
    spec fn spec_wrapped(self) -> TaskStateWrapper<S>;

    /// The state among the states of all tasks.
    fn wrapped(self) -> (res: TaskStateWrapper<S>)
        ensures
            res == self.spec_wrapped(),
    ;
}

impl<S: TaskStates> WrapTaskState<S> for SettleInternalMatchTaskState {
    open spec fn spec_wrapped(self) -> TaskStateWrapper<S> {
        TaskStateWrapper::SettleInternalMatch(self)
    }

    fn wrapped(self) -> (res: TaskStateWrapper<S>) {
        TaskStateWrapper::from(self)
    }
}

} // verus!
