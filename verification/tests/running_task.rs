use task_driver::json::Json;
use task_driver::running_task::{
    is_task_running, retry, stepped, AfterStep, Cleanup, CleanupStage, RunnableTask,
    TaskDriverError,
};
use task_driver::task_state::{QueuedTaskState, TaskStateWrapper, TaskStates, WrapTaskState};
use task_driver::traits::{Task, TaskError, TaskState};
use vstd::prelude::{Seq, View};

/// The states that a test task goes through.
#[derive(Clone, Debug, PartialEq, Eq, PartialOrd, Ord)]
enum DummyState {
    Pending,
    Running,
    Completed,
}

/// The states of a node startup task.
#[derive(Clone, Debug, PartialEq, Eq, PartialOrd, Ord)]
enum NodeStartupTaskState {
    Pending,
    RunningStateMigrations,
    Completed,
}

impl View for DummyState {
    type V = u8;

    fn view(&self) -> u8 {
        self.phase()
    }
}

impl View for NodeStartupTaskState {
    type V = u8;

    fn view(&self) -> u8 {
        self.phase()
    }
}

impl TaskState for DummyState {
    fn phase_of(state: u8) -> u8 {
        state
    }

    fn committing() -> u8 {
        1
    }

    fn completed_in(state: u8) -> bool {
        state == 2
    }

    fn name_of(_state: u8) -> Seq<char> {
        unreachable!()
    }

    fn written(_state: u8) -> Json {
        unreachable!()
    }

    fn text_of(_state: u8) -> Seq<char> {
        unreachable!()
    }

    fn read(_json: Json) -> Option<u8> {
        unreachable!()
    }

    fn phase(&self) -> u8 {
        match self {
            DummyState::Pending => 0,
            DummyState::Running => 1,
            DummyState::Completed => 2,
        }
    }

    fn commit_point() -> Self {
        DummyState::Running
    }

    fn same(&self, other: &Self) -> bool {
        self == other
    }

    fn completed(&self) -> bool {
        matches!(self, DummyState::Completed)
    }

    fn to_string(&self) -> String {
        format!("{self:?}")
    }

    fn to_json(&self) -> serde_json::Value {
        serde_json::Value::String(TaskState::to_string(self))
    }

    fn from_json(value: &serde_json::Value) -> Option<Self> {
        match value.as_str() {
            Some("Pending") => Some(DummyState::Pending),
            Some("Running") => Some(DummyState::Running),
            Some("Completed") => Some(DummyState::Completed),
            _ => None,
        }
    }
}

impl TaskState for NodeStartupTaskState {
    fn phase_of(state: u8) -> u8 {
        state
    }

    fn committing() -> u8 {
        1
    }

    fn completed_in(state: u8) -> bool {
        state == 2
    }

    fn name_of(_state: u8) -> Seq<char> {
        unreachable!()
    }

    fn written(_state: u8) -> Json {
        unreachable!()
    }

    fn text_of(_state: u8) -> Seq<char> {
        unreachable!()
    }

    fn read(_json: Json) -> Option<u8> {
        unreachable!()
    }

    fn phase(&self) -> u8 {
        match self {
            NodeStartupTaskState::Pending => 0,
            NodeStartupTaskState::RunningStateMigrations => 1,
            NodeStartupTaskState::Completed => 2,
        }
    }

    fn commit_point() -> Self {
        NodeStartupTaskState::RunningStateMigrations
    }

    fn same(&self, other: &Self) -> bool {
        self == other
    }

    fn completed(&self) -> bool {
        matches!(self, NodeStartupTaskState::Completed)
    }

    fn to_string(&self) -> String {
        format!("{self:?}")
    }

    fn to_json(&self) -> serde_json::Value {
        serde_json::Value::String(TaskState::to_string(self))
    }

    fn from_json(value: &serde_json::Value) -> Option<Self> {
        match value.as_str() {
            Some("Pending") => Some(NodeStartupTaskState::Pending),
            Some("RunningStateMigrations") => Some(NodeStartupTaskState::RunningStateMigrations),
            Some("Completed") => Some(NodeStartupTaskState::Completed),
            _ => None,
        }
    }
}

#[derive(Debug)]
struct States;

impl TaskStates for States {
    type CreateNewAccount = DummyState;
    type NodeStartup = NodeStartupTaskState;
    type Deposit = DummyState;
    type CreateBalance = DummyState;
    type CreateOrder = DummyState;
    type CancelOrder = DummyState;
    type RefreshAccount = DummyState;
    type SettleExternalMatch = DummyState;
    type SettlePrivateMatch = DummyState;
    type Withdraw = DummyState;
}

impl WrapTaskState<States> for DummyState {
    fn spec_wrapped(self) -> TaskStateWrapper<States> {
        self.wrapped()
    }

    fn wrapped(self) -> TaskStateWrapper<States> {
        TaskStateWrapper::NodeStartup(match self {
            DummyState::Pending => NodeStartupTaskState::Pending,
            DummyState::Running => NodeStartupTaskState::RunningStateMigrations,
            DummyState::Completed => NodeStartupTaskState::Completed,
        })
    }
}

#[derive(Clone, Debug)]
struct DummyDescriptor {
    bypass: bool,
    broken: bool,
}

#[derive(Clone, Debug, PartialEq, Eq)]
struct DummyError {
    retryable: bool,
}

impl TaskError for DummyError {
    fn spec_retryable(&self) -> bool {
        self.retryable
    }

    fn retryable(&self) -> bool {
        self.retryable
    }
}

#[derive(Debug)]
struct DummyTask {
    state: DummyState,
    bypass: bool,
}

impl Task for DummyTask {
    type State = DummyState;
    type Error = DummyError;
    type Descriptor = DummyDescriptor;

    fn spec_new(_descriptor: DummyDescriptor) -> Result<Self, DummyError> {
        unreachable!()
    }

    fn spec_restored(self, _state: DummyState) -> Self {
        unreachable!()
    }

    fn spec_task_state(self) -> DummyState {
        self.state
    }

    fn spec_name(self) -> Seq<char> {
        unreachable!()
    }

    fn spec_bypass_task_queue(self) -> bool {
        self.bypass
    }

    fn new(descriptor: DummyDescriptor) -> Result<Self, DummyError> {
        if descriptor.broken {
            return Err(DummyError { retryable: true });
        }
        Ok(DummyTask { state: DummyState::Pending, bypass: descriptor.bypass })
    }

    fn restore_state(&mut self, state: DummyState) {
        self.state = state;
    }

    fn task_state(&self) -> DummyState {
        self.state.clone()
    }

    fn name(&self) -> String {
        "dummy-task".to_string()
    }

    fn bypass_task_queue(&self) -> bool {
        self.bypass
    }
}

fn queued_descriptor() -> DummyDescriptor {
    DummyDescriptor { bypass: false, broken: false }
}

fn runnable(state: DummyState, bypass: bool) -> RunnableTask<DummyTask> {
    RunnableTask::new(9, DummyTask { state, bypass })
}

fn running() -> QueuedTaskState {
    QueuedTaskState::Running {
        state: "Running".to_string(),
        committed: true,
        execution_state: None,
    }
}

#[test]
fn test_restore_uses_persisted_task_state() {
    let runnable = RunnableTask::<DummyTask>::restore(
        uuid::Uuid::from_u128(0x1234).as_u128(),
        queued_descriptor(),
        Some(DummyState::Running),
    )
    .expect("task restore should succeed");

    assert!(matches!(
        runnable.state::<States>(),
        TaskStateWrapper::NodeStartup(NodeStartupTaskState::RunningStateMigrations)
    ));
}

#[test]
fn a_descriptor_makes_a_fresh_task() {
    let runnable = RunnableTask::<DummyTask>::from_descriptor(4, queued_descriptor()).unwrap();
    assert_eq!(runnable.id(), 4);
    assert_eq!(runnable.inner().state, DummyState::Pending);
    assert!(!runnable.completed());
    assert!(!runnable.bypass_task_queue());
    assert!(matches!(
        runnable.state::<States>(),
        TaskStateWrapper::NodeStartup(NodeStartupTaskState::Pending)
    ));

    let restored = RunnableTask::<DummyTask>::restore(4, queued_descriptor(), None).unwrap();
    assert_eq!(restored.inner().state, DummyState::Pending);
}

#[test]
fn a_broken_descriptor_is_a_task_error() {
    let descriptor = DummyDescriptor { bypass: false, broken: true };
    match RunnableTask::<DummyTask>::from_descriptor(4, descriptor) {
        Err(TaskDriverError::Task(error)) => assert!(error.retryable),
        _ => panic!("expected a task error"),
    }
}

#[test]
fn a_running_task_can_be_changed_in_place() {
    let mut runnable = runnable(DummyState::Pending, false);
    runnable.inner_mut().state = DummyState::Completed;
    assert!(runnable.completed());
    assert_eq!(runnable.id(), 9);
}

#[test]
fn a_successful_step_transitions() {
    let runnable = runnable(DummyState::Running, false);
    assert!(matches!(runnable.step(Ok(())), AfterStep::Transition));
    assert!(matches!(stepped::<DummyError>(Ok(())), Ok(true)));
    match stepped::<DummyError>(Err("no leader".to_string())) {
        Err(TaskDriverError::State(failure)) => assert_eq!(failure, "no leader"),
        other => panic!("expected a state error, got {other:?}"),
    }
}

#[test]
fn a_final_error_aborts_without_a_lookup() {
    let runnable = runnable(DummyState::Running, false);
    match runnable.step(Err(DummyError { retryable: false })) {
        AfterStep::Abort { error } => assert!(!error.retryable),
        other => panic!("expected an abort, got {other:?}"),
    }
}

#[test]
fn a_retryable_error_is_retried_while_the_task_runs() {
    let runnable = runnable(DummyState::Running, false);
    let error = match runnable.step(Err(DummyError { retryable: true })) {
        AfterStep::LookUp { task_id, error } => {
            assert_eq!(task_id, 9);
            error
        },
        other => panic!("expected a lookup, got {other:?}"),
    };
    assert!(matches!(retry(error.clone(), Ok(Some(running()))), Ok(false)));
    for task in [
        None,
        Some(QueuedTaskState::Queued),
        Some(QueuedTaskState::Completed),
        Some(QueuedTaskState::Failed),
    ] {
        assert!(!is_task_running(&task));
        match retry(error.clone(), Ok(task)) {
            Err(TaskDriverError::Task(failed)) => assert_eq!(failed, error),
            other => panic!("expected a task error, got {other:?}"),
        }
    }
    match retry(error, Err("no storage".to_string())) {
        Err(TaskDriverError::State(failure)) => assert_eq!(failure, "no storage"),
        other => panic!("expected a state error, got {other:?}"),
    }
}

#[test]
fn consensus_is_awaited_at_the_commit_point_and_at_the_end() {
    for (state, name, committed, awaited) in [
        (DummyState::Pending, "Pending", false, false),
        (DummyState::Running, "RunningStateMigrations", true, true),
        (DummyState::Completed, "Completed", true, true),
    ] {
        let transition = runnable(state, false).transition_state::<States>().unwrap();
        assert_eq!(transition.task_id, 9);
        assert_eq!(transition.await_consensus, awaited);
        match &transition.state {
            QueuedTaskState::Running { state, committed: queued_committed, execution_state } => {
                assert_eq!(state, name);
                assert_eq!(*queued_committed, committed);
                assert!(execution_state.is_some());
            },
            other => panic!("expected running state, got {other:?}"),
        }
    }
}

#[test]
fn a_bypassing_task_has_no_transition() {
    assert!(runnable(DummyState::Running, true).transition_state::<States>().is_none());
}

/// Runs a cleanup on the given replies, and collects its calls.
fn run(mut cleanup: Cleanup, replies: Vec<Result<(), String>>) -> (Vec<String>, Cleanup) {
    let mut calls = vec![];
    for reply in replies {
        if let Some(action) = cleanup.action() {
            calls.push(format!("{action:?}"));
        }
        cleanup = cleanup.pop_task_or_clear_queue(reply);
    }
    (calls, cleanup)
}

fn failure(text: &str) -> Result<(), String> {
    Err(text.to_string())
}

#[test]
fn a_cleanup_pops_the_task() {
    let cleanup = runnable(DummyState::Completed, false).cleanup(true, vec![1, 2]);
    let (calls, end) = run(cleanup, vec![failure("task"), Ok(()), Ok(())]);
    assert_eq!(calls, ["CleanTask", "ProposePop { task_id: 9, success: true }", "AwaitPop"]);
    assert!(matches!(end.stage, CleanupStage::Finished { outcome: Ok(()) }));
    assert!(end.action().is_none());
}

#[test]
fn a_bypassing_cleanup_touches_no_queue() {
    let cleanup = runnable(DummyState::Completed, true).cleanup(false, vec![1, 2]);
    let (calls, end) = run(cleanup, vec![Ok(())]);
    assert_eq!(calls, ["CleanTask"]);
    assert!(matches!(end.stage, CleanupStage::Finished { outcome: Ok(()) }));
}

#[test]
fn a_pop_that_cannot_be_proposed_clears_every_affected_queue() {
    let cleanup = runnable(DummyState::Completed, false).cleanup(false, vec![1, 2]);
    let (calls, end) =
        run(cleanup, vec![Ok(()), failure("no leader"), Ok(()), Ok(()), Ok(()), Ok(())]);
    assert_eq!(
        calls,
        [
            "CleanTask",
            "ProposePop { task_id: 9, success: false }",
            "ProposeClear { account_id: 1 }",
            "AwaitClear { account_id: 1 }",
            "ProposeClear { account_id: 2 }",
            "AwaitClear { account_id: 2 }",
        ]
    );
    match end.stage {
        CleanupStage::Finished { outcome: Err(failure) } => assert_eq!(failure, "no leader"),
        other => panic!("expected an end, got {other:?}"),
    }
}

#[test]
fn a_failed_pop_clears_every_affected_queue() {
    let cleanup = runnable(DummyState::Completed, false).cleanup(true, vec![5, 6]);
    let (calls, end) = run(
        cleanup,
        vec![Ok(()), Ok(()), failure("pop"), Ok(()), failure("clear"), Ok(()), Ok(())],
    );
    assert_eq!(
        calls[3..],
        [
            "ProposeClear { account_id: 5 }",
            "AwaitClear { account_id: 5 }",
            "ProposeClear { account_id: 6 }",
            "AwaitClear { account_id: 6 }",
        ]
    );
    match end.stage {
        CleanupStage::Finished { outcome: Err(failure) } => assert_eq!(failure, "clear"),
        other => panic!("expected an end, got {other:?}"),
    }
}

#[test]
fn a_failed_pop_without_affected_accounts_is_the_failure() {
    let cleanup = runnable(DummyState::Completed, false).cleanup(true, vec![]);
    let (_, end) = run(cleanup, vec![Ok(()), Ok(()), failure("pop")]);
    match end.stage {
        CleanupStage::Finished { outcome: Err(failure) } => assert_eq!(failure, "pop"),
        other => panic!("expected an end, got {other:?}"),
    }
}

#[test]
fn a_clear_that_cannot_be_proposed_ends_the_cleanup() {
    let cleanup = runnable(DummyState::Completed, false).cleanup(true, vec![5, 6]);
    let (calls, end) =
        run(cleanup, vec![Ok(()), Ok(()), failure("pop"), failure("no leader"), Ok(())]);
    assert_eq!(calls.len(), 4);
    match end.stage {
        CleanupStage::Finished { outcome: Err(failure) } => assert_eq!(failure, "no leader"),
        other => panic!("expected an end, got {other:?}"),
    }
}

#[test]
fn a_dummy_task_tells_whether_it_is_done() {
    let task = DummyTask { state: DummyState::Completed, bypass: false };
    assert!(task.completed());
    assert_eq!(task.name(), "dummy-task");
}
