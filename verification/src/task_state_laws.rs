//! What holds of the states of all tasks, and of how the queue keeps them.
use vstd::prelude::*;

use crate::json::{comes_first, json_parsed, no_entries, Json};
use crate::settlement::state::SettleInternalMatchTaskState;
use crate::task_state::{
    decoded_state, lemma_task_types, records, DecodeFailure, QueuedTaskStateView, TaskStateView,
    TaskStateWrapper, TaskStates, WrapTaskState,
};
use crate::traits::TaskState;

verus! {

/// For every kind of task, the wrapped state is completed if and only if the task's own state
/// is.
pub proof fn law_completion_is_that_of_the_task<S: TaskStates>(wrapped: TaskStateView<S>)
    ensures
        match wrapped {
            TaskStateView::CreateNewAccount(state) => wrapped.completed() == S::CreateNewAccount::completed_in(state),
            TaskStateView::NodeStartup(state) => wrapped.completed() == S::NodeStartup::completed_in(state),
            TaskStateView::Deposit(state) => wrapped.completed() == S::Deposit::completed_in(state),
            TaskStateView::CreateBalance(state) => wrapped.completed() == S::CreateBalance::completed_in(state),
            TaskStateView::CreateOrder(state) => wrapped.completed() == S::CreateOrder::completed_in(state),
            TaskStateView::CancelOrder(state) => wrapped.completed() == S::CancelOrder::completed_in(state),
            TaskStateView::RefreshAccount(state) => wrapped.completed() == S::RefreshAccount::completed_in(state),
            TaskStateView::SettleInternalMatch(state) => wrapped.completed() == SettleInternalMatchTaskState::completed_in(state),
            TaskStateView::SettleExternalMatch(state) => wrapped.completed() == S::SettleExternalMatch::completed_in(state),
            TaskStateView::SettlePrivateMatch(state) => wrapped.completed() == S::SettlePrivateMatch::completed_in(state),
            TaskStateView::Withdraw(state) => wrapped.completed() == S::Withdraw::completed_in(state),
        },
{
}

/// For every kind of task, the wrapped state is committed if and only if the task's own state
/// is at its task's commit point or past it.
pub proof fn law_commitment_is_that_of_the_task<S: TaskStates>(wrapped: TaskStateView<S>)
    ensures
        match wrapped {
            TaskStateView::CreateNewAccount(state) => wrapped.committed() <==> S::CreateNewAccount::phase_of(
                state,
            ) >= S::CreateNewAccount::phase_of(S::CreateNewAccount::committing()),
            TaskStateView::NodeStartup(state) => wrapped.committed() <==> S::NodeStartup::phase_of(
                state,
            ) >= S::NodeStartup::phase_of(S::NodeStartup::committing()),
            TaskStateView::Deposit(state) => wrapped.committed() <==> S::Deposit::phase_of(
                state,
            ) >= S::Deposit::phase_of(S::Deposit::committing()),
            TaskStateView::CreateBalance(state) => wrapped.committed() <==> S::CreateBalance::phase_of(
                state,
            ) >= S::CreateBalance::phase_of(S::CreateBalance::committing()),
            TaskStateView::CreateOrder(state) => wrapped.committed() <==> S::CreateOrder::phase_of(
                state,
            ) >= S::CreateOrder::phase_of(S::CreateOrder::committing()),
            TaskStateView::CancelOrder(state) => wrapped.committed() <==> S::CancelOrder::phase_of(
                state,
            ) >= S::CancelOrder::phase_of(S::CancelOrder::committing()),
            TaskStateView::RefreshAccount(state) => wrapped.committed() <==> S::RefreshAccount::phase_of(
                state,
            ) >= S::RefreshAccount::phase_of(S::RefreshAccount::committing()),
            TaskStateView::SettleInternalMatch(state) => wrapped.committed() <==> SettleInternalMatchTaskState::phase_of(
                state,
            ) >= SettleInternalMatchTaskState::phase_of(SettleInternalMatchTaskState::committing()),
            TaskStateView::SettleExternalMatch(state) => wrapped.committed() <==> S::SettleExternalMatch::phase_of(
                state,
            ) >= S::SettleExternalMatch::phase_of(S::SettleExternalMatch::committing()),
            TaskStateView::SettlePrivateMatch(state) => wrapped.committed() <==> S::SettlePrivateMatch::phase_of(
                state,
            ) >= S::SettlePrivateMatch::phase_of(S::SettlePrivateMatch::committing()),
            TaskStateView::Withdraw(state) => wrapped.committed() <==> S::Withdraw::phase_of(
                state,
            ) >= S::Withdraw::phase_of(S::Withdraw::committing()),
        },
{
}

/// For every kind of task, the wrapped state commits the task if and only if the task's own
/// state is the task's commit point.
pub proof fn law_commit_point_is_that_of_the_task<S: TaskStates>(wrapped: TaskStateView<S>)
    ensures
        match wrapped {
            TaskStateView::CreateNewAccount(state) => wrapped.is_committing() <==> state
                == S::CreateNewAccount::committing(),
            TaskStateView::NodeStartup(state) => wrapped.is_committing() <==> state
                == S::NodeStartup::committing(),
            TaskStateView::Deposit(state) => wrapped.is_committing() <==> state
                == S::Deposit::committing(),
            TaskStateView::CreateBalance(state) => wrapped.is_committing() <==> state
                == S::CreateBalance::committing(),
            TaskStateView::CreateOrder(state) => wrapped.is_committing() <==> state
                == S::CreateOrder::committing(),
            TaskStateView::CancelOrder(state) => wrapped.is_committing() <==> state
                == S::CancelOrder::committing(),
            TaskStateView::RefreshAccount(state) => wrapped.is_committing() <==> state
                == S::RefreshAccount::committing(),
            TaskStateView::SettleInternalMatch(state) => wrapped.is_committing() <==> state
                == SettleInternalMatchTaskState::committing(),
            TaskStateView::SettleExternalMatch(state) => wrapped.is_committing() <==> state
                == S::SettleExternalMatch::committing(),
            TaskStateView::SettlePrivateMatch(state) => wrapped.is_committing() <==> state
                == S::SettlePrivateMatch::committing(),
            TaskStateView::Withdraw(state) => wrapped.is_committing() <==> state
                == S::Withdraw::committing(),
        },
{
}

/// For every kind of task, the wrapped state has the name and the place of the task's own
/// state.
pub proof fn law_name_is_that_of_the_task<S: TaskStates>(wrapped: TaskStateView<S>)
    ensures
        match wrapped {
            TaskStateView::CreateNewAccount(state) => wrapped.name() == S::CreateNewAccount::name_of(state)
                && wrapped.phase() == S::CreateNewAccount::phase_of(state),
            TaskStateView::NodeStartup(state) => wrapped.name() == S::NodeStartup::name_of(state)
                && wrapped.phase() == S::NodeStartup::phase_of(state),
            TaskStateView::Deposit(state) => wrapped.name() == S::Deposit::name_of(state)
                && wrapped.phase() == S::Deposit::phase_of(state),
            TaskStateView::CreateBalance(state) => wrapped.name() == S::CreateBalance::name_of(state)
                && wrapped.phase() == S::CreateBalance::phase_of(state),
            TaskStateView::CreateOrder(state) => wrapped.name() == S::CreateOrder::name_of(state)
                && wrapped.phase() == S::CreateOrder::phase_of(state),
            TaskStateView::CancelOrder(state) => wrapped.name() == S::CancelOrder::name_of(state)
                && wrapped.phase() == S::CancelOrder::phase_of(state),
            TaskStateView::RefreshAccount(state) => wrapped.name() == S::RefreshAccount::name_of(state)
                && wrapped.phase() == S::RefreshAccount::phase_of(state),
            TaskStateView::SettleInternalMatch(state) => wrapped.name() == SettleInternalMatchTaskState::name_of(state)
                && wrapped.phase() == SettleInternalMatchTaskState::phase_of(state),
            TaskStateView::SettleExternalMatch(state) => wrapped.name() == S::SettleExternalMatch::name_of(state)
                && wrapped.phase() == S::SettleExternalMatch::phase_of(state),
            TaskStateView::SettlePrivateMatch(state) => wrapped.name() == S::SettlePrivateMatch::name_of(state)
                && wrapped.phase() == S::SettlePrivateMatch::phase_of(state),
            TaskStateView::Withdraw(state) => wrapped.name() == S::Withdraw::name_of(state)
                && wrapped.phase() == S::Withdraw::phase_of(state),
        },
{
}

/// For every kind of task, what is persisted of the wrapped state is what the task itself
/// writes of it.
pub proof fn law_persisted_form_is_that_of_the_task<S: TaskStates>(wrapped: TaskStateView<S>)
    ensures
        match wrapped {
            TaskStateView::CreateNewAccount(state) => wrapped.state_json() == S::CreateNewAccount::written(state)
                && wrapped.state_text() == S::CreateNewAccount::text_of(state),
            TaskStateView::NodeStartup(state) => wrapped.state_json() == S::NodeStartup::written(state)
                && wrapped.state_text() == S::NodeStartup::text_of(state),
            TaskStateView::Deposit(state) => wrapped.state_json() == S::Deposit::written(state)
                && wrapped.state_text() == S::Deposit::text_of(state),
            TaskStateView::CreateBalance(state) => wrapped.state_json() == S::CreateBalance::written(state)
                && wrapped.state_text() == S::CreateBalance::text_of(state),
            TaskStateView::CreateOrder(state) => wrapped.state_json() == S::CreateOrder::written(state)
                && wrapped.state_text() == S::CreateOrder::text_of(state),
            TaskStateView::CancelOrder(state) => wrapped.state_json() == S::CancelOrder::written(state)
                && wrapped.state_text() == S::CancelOrder::text_of(state),
            TaskStateView::RefreshAccount(state) => wrapped.state_json() == S::RefreshAccount::written(state)
                && wrapped.state_text() == S::RefreshAccount::text_of(state),
            TaskStateView::SettleInternalMatch(state) => wrapped.state_json() == SettleInternalMatchTaskState::written(state)
                && wrapped.state_text() == SettleInternalMatchTaskState::text_of(state),
            TaskStateView::SettleExternalMatch(state) => wrapped.state_json() == S::SettleExternalMatch::written(state)
                && wrapped.state_text() == S::SettleExternalMatch::text_of(state),
            TaskStateView::SettlePrivateMatch(state) => wrapped.state_json() == S::SettlePrivateMatch::written(state)
                && wrapped.state_text() == S::SettlePrivateMatch::text_of(state),
            TaskStateView::Withdraw(state) => wrapped.state_json() == S::Withdraw::written(state)
                && wrapped.state_text() == S::Withdraw::text_of(state),
        },
{
}

/// Every kind of task is persisted under its own name.
pub proof fn law_kind_is_named_by_itself<S: TaskStates>(wrapped: TaskStateView<S>)
    ensures
        match wrapped {
            TaskStateView::CreateNewAccount(state) => wrapped.task_type() == "CreateNewAccount"@,
            TaskStateView::NodeStartup(state) => wrapped.task_type() == "NodeStartup"@,
            TaskStateView::Deposit(state) => wrapped.task_type() == "Deposit"@,
            TaskStateView::CreateBalance(state) => wrapped.task_type() == "CreateBalance"@,
            TaskStateView::CreateOrder(state) => wrapped.task_type() == "CreateOrder"@,
            TaskStateView::CancelOrder(state) => wrapped.task_type() == "CancelOrder"@,
            TaskStateView::RefreshAccount(state) => wrapped.task_type() == "RefreshAccount"@,
            TaskStateView::SettleInternalMatch(state) => wrapped.task_type() == "SettleInternalMatch"@,
            TaskStateView::SettleExternalMatch(state) => wrapped.task_type() == "SettleExternalMatch"@,
            TaskStateView::SettlePrivateMatch(state) => wrapped.task_type() == "SettlePrivateMatch"@,
            TaskStateView::Withdraw(state) => wrapped.task_type() == "Withdraw"@,
        },
{
}

/// States of two kinds of tasks are persisted under different names.
pub proof fn law_kinds_are_told_apart<S: TaskStates>(
    wrapped: TaskStateView<S>,
    other: TaskStateView<S>,
)
    ensures
        wrapped.task_type() == other.task_type() <==> match (wrapped, other) {
            (TaskStateView::CreateNewAccount(_), TaskStateView::CreateNewAccount(_)) => true,
            (TaskStateView::NodeStartup(_), TaskStateView::NodeStartup(_)) => true,
            (TaskStateView::Deposit(_), TaskStateView::Deposit(_)) => true,
            (TaskStateView::CreateBalance(_), TaskStateView::CreateBalance(_)) => true,
            (TaskStateView::CreateOrder(_), TaskStateView::CreateOrder(_)) => true,
            (TaskStateView::CancelOrder(_), TaskStateView::CancelOrder(_)) => true,
            (TaskStateView::RefreshAccount(_), TaskStateView::RefreshAccount(_)) => true,
            (TaskStateView::SettleInternalMatch(_), TaskStateView::SettleInternalMatch(_)) => true,
            (TaskStateView::SettleExternalMatch(_), TaskStateView::SettleExternalMatch(_)) => true,
            (TaskStateView::SettlePrivateMatch(_), TaskStateView::SettlePrivateMatch(_)) => true,
            (TaskStateView::Withdraw(_), TaskStateView::Withdraw(_)) => true,
            _ => false,
        },
{
    lemma_task_types();
}

/// What is read under the name of a kind of task is read as the state of such a task, by
/// the task's own reader, and is refused if that refuses it.
pub proof fn law_states_are_read_by_their_kind<S: TaskStates>(json: Json)
    ensures
        match TaskStateView::<S>::from_state_json("CreateNewAccount"@, json) {
            Ok(wrapped) => wrapped matches TaskStateView::CreateNewAccount(state) && S::CreateNewAccount::read(
                json,
            ) == Some(state),
            Err(failure) => failure is State && S::CreateNewAccount::read(json) is None,
        },
        match TaskStateView::<S>::from_state_json("NodeStartup"@, json) {
            Ok(wrapped) => wrapped matches TaskStateView::NodeStartup(state) && S::NodeStartup::read(
                json,
            ) == Some(state),
            Err(failure) => failure is State && S::NodeStartup::read(json) is None,
        },
        match TaskStateView::<S>::from_state_json("Deposit"@, json) {
            Ok(wrapped) => wrapped matches TaskStateView::Deposit(state) && S::Deposit::read(
                json,
            ) == Some(state),
            Err(failure) => failure is State && S::Deposit::read(json) is None,
        },
        match TaskStateView::<S>::from_state_json("CreateBalance"@, json) {
            Ok(wrapped) => wrapped matches TaskStateView::CreateBalance(state) && S::CreateBalance::read(
                json,
            ) == Some(state),
            Err(failure) => failure is State && S::CreateBalance::read(json) is None,
        },
        match TaskStateView::<S>::from_state_json("CreateOrder"@, json) {
            Ok(wrapped) => wrapped matches TaskStateView::CreateOrder(state) && S::CreateOrder::read(
                json,
            ) == Some(state),
            Err(failure) => failure is State && S::CreateOrder::read(json) is None,
        },
        match TaskStateView::<S>::from_state_json("CancelOrder"@, json) {
            Ok(wrapped) => wrapped matches TaskStateView::CancelOrder(state) && S::CancelOrder::read(
                json,
            ) == Some(state),
            Err(failure) => failure is State && S::CancelOrder::read(json) is None,
        },
        match TaskStateView::<S>::from_state_json("RefreshAccount"@, json) {
            Ok(wrapped) => wrapped matches TaskStateView::RefreshAccount(state) && S::RefreshAccount::read(
                json,
            ) == Some(state),
            Err(failure) => failure is State && S::RefreshAccount::read(json) is None,
        },
        match TaskStateView::<S>::from_state_json("SettleInternalMatch"@, json) {
            Ok(wrapped) => wrapped matches TaskStateView::SettleInternalMatch(state) && SettleInternalMatchTaskState::read(
                json,
            ) == Some(state),
            Err(failure) => failure is State && SettleInternalMatchTaskState::read(json) is None,
        },
        match TaskStateView::<S>::from_state_json("SettleExternalMatch"@, json) {
            Ok(wrapped) => wrapped matches TaskStateView::SettleExternalMatch(state) && S::SettleExternalMatch::read(
                json,
            ) == Some(state),
            Err(failure) => failure is State && S::SettleExternalMatch::read(json) is None,
        },
        match TaskStateView::<S>::from_state_json("SettlePrivateMatch"@, json) {
            Ok(wrapped) => wrapped matches TaskStateView::SettlePrivateMatch(state) && S::SettlePrivateMatch::read(
                json,
            ) == Some(state),
            Err(failure) => failure is State && S::SettlePrivateMatch::read(json) is None,
        },
        match TaskStateView::<S>::from_state_json("Withdraw"@, json) {
            Ok(wrapped) => wrapped matches TaskStateView::Withdraw(state) && S::Withdraw::read(
                json,
            ) == Some(state),
            Err(failure) => failure is State && S::Withdraw::read(json) is None,
        },
{
    lemma_task_types();
}

/// A payload of no known kind of task is refused, whatever state it holds.
pub proof fn law_unknown_kinds_are_refused<S: TaskStates>(task_type: Seq<char>, json: Json)
    requires
        forall|wrapped: TaskStateView<S>| task_type != #[trigger] wrapped.task_type(),
    ensures
        TaskStateView::<S>::from_state_json(task_type, json) == Err::<
            TaskStateView<S>,
            DecodeFailure,
        >(DecodeFailure::Envelope),
{
    assert(task_type != TaskStateView::<S>::CreateNewAccount(arbitrary()).task_type());
    assert(task_type != TaskStateView::<S>::NodeStartup(arbitrary()).task_type());
    assert(task_type != TaskStateView::<S>::Deposit(arbitrary()).task_type());
    assert(task_type != TaskStateView::<S>::CreateBalance(arbitrary()).task_type());
    assert(task_type != TaskStateView::<S>::CreateOrder(arbitrary()).task_type());
    assert(task_type != TaskStateView::<S>::CancelOrder(arbitrary()).task_type());
    assert(task_type != TaskStateView::<S>::RefreshAccount(arbitrary()).task_type());
    assert(task_type != TaskStateView::<S>::SettleInternalMatch(arbitrary()).task_type());
    assert(task_type != TaskStateView::<S>::SettleExternalMatch(arbitrary()).task_type());
    assert(task_type != TaskStateView::<S>::SettlePrivateMatch(arbitrary()).task_type());
    assert(task_type != TaskStateView::<S>::Withdraw(arbitrary()).task_type());
}

/// What a payload says does not depend on how it spells the kind of its task: by its name,
/// or by an object with `null` under its name.
pub proof fn law_kind_may_be_a_name_or_an_object<S: TaskStates>(
    entries: Map<Seq<char>, Json>,
    keys: Seq<Seq<char>>,
    task_type: Seq<char>,
)
    ensures
        TaskStateView::<S>::from_json(
            Json::Object(entries.insert("task_type"@, Json::Text(task_type)), keys),
        ) == TaskStateView::<S>::from_json(
            Json::Object(
                entries.insert(
                    "task_type"@,
                    Json::Object(no_entries().insert(task_type, Json::Null), seq![task_type]),
                ),
                keys,
            ),
        ),
{
    lemma_task_types();
}

/// What a payload says does not depend on whether it is an object that names the kind of
/// its task first, or an array of the kind and the state.
pub proof fn law_payload_may_be_an_array<S: TaskStates>(task_type: Seq<char>, state: Json)
    ensures
        TaskStateView::<S>::from_json(Json::Array(seq![Json::Text(task_type), state]))
            == TaskStateView::<S>::from_json(
            Json::Object(
                map!["task_type"@ => Json::Text(task_type), "state"@ => state],
                seq!["task_type"@, "state"@],
            ),
        ),
        TaskStateView::<S>::from_json(Json::Array(seq![Json::Text(task_type), state]))
            == TaskStateView::<S>::from_state_json(task_type, state),
{
    lemma_task_types();
    let keys = seq!["task_type"@, "state"@];
    assert(!comes_first(keys, "state"@, "task_type"@)) by {
        assert forall|i: int| 0 <= i < keys.len() && #[trigger] keys[i] == "state"@ implies exists|
            j: int,
        |
            0 <= j < i && #[trigger] keys[j] == "task_type"@ by {
            assert(keys[0] == "task_type"@);
        }
    }
}

/// A payload that can be read with the kind of its task first can be read with the state
/// first, and says the same.
pub proof fn law_kind_and_state_come_in_any_order<S: TaskStates>(
    entries: Map<Seq<char>, Json>,
    state: TaskStateView<S>,
)
    requires
        TaskStateView::<S>::from_json(Json::Object(entries, seq!["task_type"@, "state"@])) == Ok::<
            TaskStateView<S>,
            DecodeFailure,
        >(state),
    ensures
        TaskStateView::<S>::from_json(Json::Object(entries, seq!["state"@, "task_type"@])) == Ok::<
            TaskStateView<S>,
            DecodeFailure,
        >(state),
{
    lemma_task_types();
    let keys = seq!["task_type"@, "state"@];
    assert(!comes_first(keys, "state"@, "task_type"@)) by {
        assert forall|i: int| 0 <= i < keys.len() && #[trigger] keys[i] == "state"@ implies exists|
            j: int,
        |
            0 <= j < i && #[trigger] keys[j] == "task_type"@ by {
            assert(keys[0] == "task_type"@);
        }
    }
}

/// A state without a payload may have an empty object in the place of `null`, if it comes
/// before the kind of its task, and only then.
pub proof fn law_empty_payload_counts_before_the_kind<S: TaskStates>(
    task_type: Seq<char>,
    name: Seq<char>,
)
    requires
        TaskStateView::<S>::from_state_json(
            task_type,
            Json::Object(
                no_entries().insert(name, Json::Object(no_entries(), seq![])),
                seq![name],
            ),
        ) == Err::<TaskStateView<S>, DecodeFailure>(DecodeFailure::State),
    ensures
        ({
            let empty = Json::Object(
                no_entries().insert(name, Json::Object(no_entries(), seq![])),
                seq![name],
            );
            let bare = Json::Object(no_entries().insert(name, Json::Null), seq![name]);
            let entries = map!["task_type"@ => Json::Text(task_type), "state"@ => empty];
            &&& TaskStateView::<S>::from_json(
                Json::Object(entries, seq!["state"@, "task_type"@]),
            ) == TaskStateView::<S>::from_state_json(task_type, bare)
            &&& TaskStateView::<S>::from_json(
                Json::Object(entries, seq!["task_type"@, "state"@]),
            ) == Err::<TaskStateView<S>, DecodeFailure>(DecodeFailure::State)
        }),
{
    lemma_task_types();
    let early = seq!["state"@, "task_type"@];
    assert(comes_first(early, "state"@, "task_type"@)) by {
        assert(early[0] == "state"@);
    }
    let keys = seq!["task_type"@, "state"@];
    assert(!comes_first(keys, "state"@, "task_type"@)) by {
        assert forall|i: int| 0 <= i < keys.len() && #[trigger] keys[i] == "state"@ implies exists|
            j: int,
        |
            0 <= j < i && #[trigger] keys[j] == "task_type"@ by {
            assert(keys[0] == "task_type"@);
        }
    }
}

/// A payload that does not say of what kind its task is, or what its state is, is refused.
pub proof fn law_incomplete_payloads_are_refused<S: TaskStates>(json: Json)
    requires
        match json {
            Json::Object(entries, _) => !entries.dom().contains("task_type"@)
                || !entries.dom().contains("state"@),
            Json::Array(items) => items.len() != 2,
            _ => true,
        },
    ensures
        TaskStateView::<S>::from_json(json) == Err::<TaskStateView<S>, DecodeFailure>(
            DecodeFailure::Envelope,
        ),
{
}

/// Nothing is decoded if and only if there is no payload, and a payload is a syntax error
/// if and only if it is no JSON text. What it then says is read from it, and nothing else.
pub proof fn law_only_the_payload_is_decoded<S: TaskStates>(queued: QueuedTaskStateView)
    ensures
        match queued {
            QueuedTaskStateView::Running { execution_state: Some(text), .. } => {
                match json_parsed(text) {
                    Some(json) => match TaskStateView::<S>::from_json(json) {
                        Ok(state) => TaskStateView::<S>::from_queued(queued) == Ok::<
                            Option<TaskStateView<S>>,
                            DecodeFailure,
                        >(Some(state)),
                        Err(failure) => TaskStateView::<S>::from_queued(queued) == Err::<
                            Option<TaskStateView<S>>,
                            DecodeFailure,
                        >(failure),
                    },
                    None => TaskStateView::<S>::from_queued(queued) == Err::<
                        Option<TaskStateView<S>>,
                        DecodeFailure,
                    >(DecodeFailure::Syntax),
                }
            },
            _ => TaskStateView::<S>::from_queued(queued) == Ok::<
                Option<TaskStateView<S>>,
                DecodeFailure,
            >(None),
        },
{
}

/// Decoding a payload as the state of a given task goes by the state in it alone: payloads
/// that are objects with the same state decode alike, and those without one to nothing.
pub proof fn law_concrete_decoding_goes_by_the_state<T: TaskState>(queued: QueuedTaskStateView)
    ensures
        match queued {
            QueuedTaskStateView::Running { execution_state: Some(text), .. } => {
                match json_parsed(text) {
                    Some(Json::Object(entries, _)) => if entries.dom().contains("state"@) {
                        match decoded_state::<T>(queued) {
                            Ok(decoded) => decoded is Some && decoded == T::read(entries["state"@]),
                            Err(failure) => failure is State && T::read(entries["state"@]) is None,
                        }
                    } else {
                        decoded_state::<T>(queued) matches Ok(None)
                    },
                    Some(_) => decoded_state::<T>(queued) matches Ok(None),
                    None => decoded_state::<T>(queued) matches Err(DecodeFailure::Syntax),
                }
            },
            _ => decoded_state::<T>(queued) matches Ok(None),
        },
{
}

/// A queued task that records a state is running, shows the state's name, is down as
/// committed if and only if the task has committed, and has the state decoded from it.
pub proof fn law_recorded_state_is_decoded<S: TaskStates>(
    queued: QueuedTaskStateView,
    wrapped: TaskStateView<S>,
)
    requires
        records::<S>(queued, wrapped),
    ensures
        queued matches QueuedTaskStateView::Running { state, committed, execution_state } && {
            &&& state == wrapped.name()
            &&& committed == wrapped.committed()
            &&& execution_state is Some
        },
        queued.committed() == wrapped.committed(),
        TaskStateView::<S>::from_queued(queued) == Ok::<Option<TaskStateView<S>>, DecodeFailure>(
            Some(wrapped),
        ),
        match wrapped {
            TaskStateView::CreateNewAccount(state) => decoded_state::<S::CreateNewAccount>(queued) matches Ok(
                Some(decoded),
            ) && decoded == state,
            TaskStateView::NodeStartup(state) => decoded_state::<S::NodeStartup>(queued) matches Ok(
                Some(decoded),
            ) && decoded == state,
            TaskStateView::Deposit(state) => decoded_state::<S::Deposit>(queued) matches Ok(
                Some(decoded),
            ) && decoded == state,
            TaskStateView::CreateBalance(state) => decoded_state::<S::CreateBalance>(queued) matches Ok(
                Some(decoded),
            ) && decoded == state,
            TaskStateView::CreateOrder(state) => decoded_state::<S::CreateOrder>(queued) matches Ok(
                Some(decoded),
            ) && decoded == state,
            TaskStateView::CancelOrder(state) => decoded_state::<S::CancelOrder>(queued) matches Ok(
                Some(decoded),
            ) && decoded == state,
            TaskStateView::RefreshAccount(state) => decoded_state::<S::RefreshAccount>(queued) matches Ok(
                Some(decoded),
            ) && decoded == state,
            TaskStateView::SettleInternalMatch(state) => decoded_state::<SettleInternalMatchTaskState>(queued) matches Ok(
                Some(decoded),
            ) && decoded == state,
            TaskStateView::SettleExternalMatch(state) => decoded_state::<S::SettleExternalMatch>(queued) matches Ok(
                Some(decoded),
            ) && decoded == state,
            TaskStateView::SettlePrivateMatch(state) => decoded_state::<S::SettlePrivateMatch>(queued) matches Ok(
                Some(decoded),
            ) && decoded == state,
            TaskStateView::Withdraw(state) => decoded_state::<S::Withdraw>(queued) matches Ok(
                Some(decoded),
            ) && decoded == state,
        },
{
}

/// A settlement state among the states of all tasks is the state of a settlement.
pub proof fn law_settlement_states_are_wrapped_as_such<S: TaskStates>(
    state: SettleInternalMatchTaskState,
)
    ensures
        <SettleInternalMatchTaskState as WrapTaskState<S>>::spec_wrapped(state)@
            == TaskStateView::<S>::SettleInternalMatch(state@),
{
}

/// A state is persisted together with the kind of its task, which comes first.
pub proof fn law_payload_holds_kind_and_state<S: TaskStates>(wrapped: TaskStateView<S>)
    ensures
        wrapped.json() matches Json::Object(entries, keys) && {
            &&& entries["task_type"@] == Json::Text(wrapped.task_type())
            &&& entries["state"@] == wrapped.state_json()
            &&& keys == seq!["task_type"@, "state"@]
            &&& forall|key: Seq<char>| #[trigger] entries.dom().contains(key) ==> key
                == "task_type"@ || key == "state"@
        },
{
    lemma_task_types();
}

/// What the queue shows of a task is what the queue holds: only a running task can be down
/// as committed or carry a payload.
pub proof fn law_only_running_tasks_carry_a_payload(queued: QueuedTaskStateView)
    ensures
        match queued {
            QueuedTaskStateView::Running { committed, execution_state, .. } => {
                &&& queued.committed() == committed
                &&& queued.execution_state() == execution_state
            },
            _ => !queued.committed() && queued.execution_state() is None,
        },
{
}

/// The model of a wrapped state is that of the state itself, under the same kind of task.
pub proof fn law_wrapped_states_are_modelled_by_kind<S: TaskStates>(wrapper: TaskStateWrapper<S>)
    ensures
        match wrapper {
            TaskStateWrapper::CreateNewAccount(state) => wrapper@ == TaskStateView::<S>::CreateNewAccount(
                state@,
            ),
            TaskStateWrapper::NodeStartup(state) => wrapper@ == TaskStateView::<S>::NodeStartup(
                state@,
            ),
            TaskStateWrapper::Deposit(state) => wrapper@ == TaskStateView::<S>::Deposit(
                state@,
            ),
            TaskStateWrapper::CreateBalance(state) => wrapper@ == TaskStateView::<S>::CreateBalance(
                state@,
            ),
            TaskStateWrapper::CreateOrder(state) => wrapper@ == TaskStateView::<S>::CreateOrder(
                state@,
            ),
            TaskStateWrapper::CancelOrder(state) => wrapper@ == TaskStateView::<S>::CancelOrder(
                state@,
            ),
            TaskStateWrapper::RefreshAccount(state) => wrapper@ == TaskStateView::<S>::RefreshAccount(
                state@,
            ),
            TaskStateWrapper::SettleInternalMatch(state) => wrapper@ == TaskStateView::<S>::SettleInternalMatch(
                state@,
            ),
            TaskStateWrapper::SettleExternalMatch(state) => wrapper@ == TaskStateView::<S>::SettleExternalMatch(
                state@,
            ),
            TaskStateWrapper::SettlePrivateMatch(state) => wrapper@ == TaskStateView::<S>::SettlePrivateMatch(
                state@,
            ),
            TaskStateWrapper::Withdraw(state) => wrapper@ == TaskStateView::<S>::Withdraw(
                state@,
            ),
        },
{
}

/// Keys besides the kind of the task and the state do not matter, wherever they stand.
pub proof fn law_other_keys_do_not_matter<S: TaskStates>(
    entries: Map<Seq<char>, Json>,
    keys: Seq<Seq<char>>,
    key: Seq<char>,
    value: Json,
    place: int,
)
    requires
        key != "task_type"@,
        key != "state"@,
        0 <= place <= keys.len(),
    ensures
        TaskStateView::<S>::from_json(
            Json::Object(entries.insert(key, value), keys.insert(place, key)),
        ) == TaskStateView::<S>::from_json(Json::Object(entries, keys)),
{
    let more = keys.insert(place, key);
    if comes_first(keys, "state"@, "task_type"@) {
        let i = choose|i: int|
            0 <= i < keys.len() && #[trigger] keys[i] == "state"@ && forall|j: int|
                0 <= j < i ==> #[trigger] keys[j] != "task_type"@;
        let k = if i < place {
            i
        } else {
            i + 1
        };
        assert(more[k] == "state"@);
        assert forall|j: int| 0 <= j < k implies #[trigger] more[j] != "task_type"@ by {
            if j < place {
                assert(more[j] == keys[j]);
            } else if j > place {
                assert(more[j] == keys[j - 1]);
            }
        }
    }
    if comes_first(more, "state"@, "task_type"@) {
        let k = choose|k: int|
            0 <= k < more.len() && #[trigger] more[k] == "state"@ && forall|j: int|
                0 <= j < k ==> #[trigger] more[j] != "task_type"@;
        let i = if k < place {
            k
        } else {
            k - 1
        };
        assert(keys[i] == more[k]);
        assert forall|j: int| 0 <= j < i implies #[trigger] keys[j] != "task_type"@ by {
            if j < place {
                assert(keys[j] == more[j]);
            } else {
                assert(keys[j] == more[j + 1]);
            }
        }
    }
}

/// For every kind of task, consensus is awaited on a transition to the state that commits
/// the task, and on one to a state in which the task is completed, and on no other.
pub proof fn law_consensus_is_awaited_where_it_matters<S: TaskStates>(wrapped: TaskStateView<S>)
    ensures
        match wrapped {
            TaskStateView::CreateNewAccount(state) => wrapped.awaits_consensus() <==> state
                == S::CreateNewAccount::committing() || S::CreateNewAccount::completed_in(state),
            TaskStateView::NodeStartup(state) => wrapped.awaits_consensus() <==> state
                == S::NodeStartup::committing() || S::NodeStartup::completed_in(state),
            TaskStateView::Deposit(state) => wrapped.awaits_consensus() <==> state
                == S::Deposit::committing() || S::Deposit::completed_in(state),
            TaskStateView::CreateBalance(state) => wrapped.awaits_consensus() <==> state
                == S::CreateBalance::committing() || S::CreateBalance::completed_in(state),
            TaskStateView::CreateOrder(state) => wrapped.awaits_consensus() <==> state
                == S::CreateOrder::committing() || S::CreateOrder::completed_in(state),
            TaskStateView::CancelOrder(state) => wrapped.awaits_consensus() <==> state
                == S::CancelOrder::committing() || S::CancelOrder::completed_in(state),
            TaskStateView::RefreshAccount(state) => wrapped.awaits_consensus() <==> state
                == S::RefreshAccount::committing() || S::RefreshAccount::completed_in(state),
            TaskStateView::SettleInternalMatch(state) => wrapped.awaits_consensus() <==> state
                == SettleInternalMatchTaskState::committing() || SettleInternalMatchTaskState::completed_in(state),
            TaskStateView::SettleExternalMatch(state) => wrapped.awaits_consensus() <==> state
                == S::SettleExternalMatch::committing() || S::SettleExternalMatch::completed_in(state),
            TaskStateView::SettlePrivateMatch(state) => wrapped.awaits_consensus() <==> state
                == S::SettlePrivateMatch::committing() || S::SettlePrivateMatch::completed_in(state),
            TaskStateView::Withdraw(state) => wrapped.awaits_consensus() <==> state
                == S::Withdraw::committing() || S::Withdraw::completed_in(state),
        },
{
}

} // verus!
