use task_driver::account::{Balance, Order, PrivacyRing};
use task_driver::json::Json;
use task_driver::resumption::{plan_resumption, Resumption};
use task_driver::settlement::party::PartyStateTransition;
use task_driver::settlement::state::SettleInternalMatchTaskState;
use task_driver::task_state::{
    decode_task_state, QueuedTaskState, TaskStateDecodeError, TaskStateWrapper, TaskStates,
    WrapTaskState,
};
use task_driver::traits::TaskState;
use vstd::prelude::{Seq, View};

/// The state of a create order task.
#[derive(Clone, Debug, PartialEq, Eq, PartialOrd, Ord)]
enum CreateOrderTaskState {
    Pending,
    Creating,
    Completed,
}

impl View for CreateOrderTaskState {
    type V = u8;

    fn view(&self) -> u8 {
        self.phase()
    }
}

impl TaskState for CreateOrderTaskState {
    fn phase_of(state: u8) -> u8 {
        state
    }

    fn committing() -> u8 {
        1
    }

    fn completed_in(state: u8) -> bool {
        state == 2
    }

    fn name_of(_state: u8) -> Seq<char> {
        unreachable!()
    }

    fn written(_state: u8) -> Json {
        unreachable!()
    }

    fn text_of(_state: u8) -> Seq<char> {
        unreachable!()
    }

    fn read(_json: Json) -> Option<u8> {
        unreachable!()
    }

    fn phase(&self) -> u8 {
        match self {
            CreateOrderTaskState::Pending => 0,
            CreateOrderTaskState::Creating => 1,
            CreateOrderTaskState::Completed => 2,
        }
    }

    fn commit_point() -> Self {
        CreateOrderTaskState::Creating
    }

    fn same(&self, other: &Self) -> bool {
        self == other
    }

    fn completed(&self) -> bool {
        matches!(self, CreateOrderTaskState::Completed)
    }

    fn to_string(&self) -> String {
        format!("{self:?}")
    }

    fn to_json(&self) -> serde_json::Value {
        serde_json::Value::String(TaskState::to_string(self))
    }

    fn from_json(value: &serde_json::Value) -> Option<Self> {
        match value.as_str() {
            Some("Pending") => Some(CreateOrderTaskState::Pending),
            Some("Creating") => Some(CreateOrderTaskState::Creating),
            Some("Completed") => Some(CreateOrderTaskState::Completed),
            _ => None,
        }
    }
}

/// The states of all tasks, those of the other tasks being of no matter here.
#[derive(Clone, Debug)]
struct States;

impl TaskStates for States {
    type CreateNewAccount = CreateOrderTaskState;
    type NodeStartup = CreateOrderTaskState;
    type Deposit = CreateOrderTaskState;
    type CreateBalance = CreateOrderTaskState;
    type CreateOrder = CreateOrderTaskState;
    type CancelOrder = CreateOrderTaskState;
    type RefreshAccount = CreateOrderTaskState;
    type SettleExternalMatch = CreateOrderTaskState;
    type SettlePrivateMatch = CreateOrderTaskState;
    type Withdraw = CreateOrderTaskState;
}

type Wrapper = TaskStateWrapper<States>;

#[test]
fn test_running_state_roundtrips_execution_payload() {
    let wrapper: Wrapper = TaskStateWrapper::CreateOrder(CreateOrderTaskState::Creating);
    let queued_state: QueuedTaskState = wrapper.clone().into();

    match &queued_state {
        QueuedTaskState::Running { state, committed, execution_state } => {
            assert_eq!(state, "Creating");
            assert!(*committed);
            assert!(execution_state.is_some());
        },
        other => panic!("expected running state, got {other:?}"),
    }

    let decoded_wrapper = Wrapper::from_queued_task_state(&queued_state)
        .expect("queued task state should decode")
        .expect("execution payload should be present");
    assert!(matches!(
        decoded_wrapper,
        TaskStateWrapper::CreateOrder(CreateOrderTaskState::Creating)
    ));

    let decoded_concrete = decode_task_state::<CreateOrderTaskState>(&queued_state)
        .expect("concrete task state should decode")
        .expect("execution payload should be present");
    assert_eq!(decoded_concrete, CreateOrderTaskState::Creating);
}

#[test]
fn test_missing_execution_payload_decodes_to_none() {
    let queued_state = QueuedTaskState::Running {
        state: "Pending".to_string(),
        committed: false,
        execution_state: None,
    };

    assert!(Wrapper::from_queued_task_state(&queued_state)
        .expect("missing payload should not error")
        .is_none());
    assert!(decode_task_state::<CreateOrderTaskState>(&queued_state)
        .expect("missing payload should not error")
        .is_none());
}

fn order(ring: PrivacyRing, commitment: &str) -> Order {
    Order {
        id: 7,
        ring,
        input_token: "0xaa".to_string(),
        output_token: "0xbb".to_string(),
        commitment: commitment.to_string(),
        details: "{\"amount\":\"12\"}".to_string(),
    }
}

fn balance(mint: &str, commitment: &str) -> Balance {
    Balance {
        mint: mint.to_string(),
        commitment: commitment.to_string(),
        details: "amount \"5\"".to_string(),
    }
}

fn transition() -> PartyStateTransition {
    PartyStateTransition {
        account_id: 1,
        order_id: 7,
        order_before: order(PrivacyRing::Ring2, "c0"),
        order_after: order(PrivacyRing::Ring2, "c1"),
        input_balance_before: Some(balance("0xaa", "i0")),
        input_balance_after: Some(balance("0xaa", "i1")),
        output_balance_before: None,
        output_balance_after: Some(balance("0xbb", "o1")),
    }
}

fn updating() -> SettleInternalMatchTaskState {
    SettleInternalMatchTaskState::UpdatingState { party0: transition(), party1: transition() }
}

fn planned() -> SettleInternalMatchTaskState {
    SettleInternalMatchTaskState::SubmittingTxPlanned {
        party0: transition(),
        party1: transition(),
    }
}

fn with_payload(payload: &str) -> QueuedTaskState {
    QueuedTaskState::Running {
        state: "Pending".to_string(),
        committed: false,
        execution_state: Some(payload.to_string()),
    }
}

fn all_wrappers() -> Vec<(Wrapper, &'static str)> {
    let state = CreateOrderTaskState::Creating;
    vec![
        (TaskStateWrapper::CreateNewAccount(state.clone()), "CreateNewAccount"),
        (TaskStateWrapper::NodeStartup(state.clone()), "NodeStartup"),
        (TaskStateWrapper::Deposit(state.clone()), "Deposit"),
        (TaskStateWrapper::CreateBalance(state.clone()), "CreateBalance"),
        (TaskStateWrapper::CreateOrder(state.clone()), "CreateOrder"),
        (TaskStateWrapper::CancelOrder(state.clone()), "CancelOrder"),
        (TaskStateWrapper::RefreshAccount(state.clone()), "RefreshAccount"),
        (
            TaskStateWrapper::SettleInternalMatch(SettleInternalMatchTaskState::SubmittingTx),
            "SettleInternalMatch",
        ),
        (TaskStateWrapper::SettleExternalMatch(state.clone()), "SettleExternalMatch"),
        (TaskStateWrapper::SettlePrivateMatch(state.clone()), "SettlePrivateMatch"),
        (TaskStateWrapper::Withdraw(state), "Withdraw"),
    ]
}

#[test]
fn every_task_type_keeps_its_name_through_the_queue() {
    for (wrapper, task_type) in all_wrappers() {
        assert_eq!(wrapper.task_type(), task_type);
        assert!(wrapper.committed());
        assert!(wrapper.is_committing());
        assert!(!wrapper.completed());
        let name = wrapper.to_string();

        let queued = QueuedTaskState::from(wrapper.clone());
        assert!(queued.is_running());
        let decoded = Wrapper::from_queued_task_state(&queued).unwrap().unwrap();
        assert_eq!(decoded.task_type(), task_type);
        assert_eq!(decoded.to_string(), name);
    }
}

#[test]
fn a_payload_is_tagged_with_its_task_type() {
    let wrapper: Wrapper = TaskStateWrapper::CreateOrder(CreateOrderTaskState::Pending);
    let value = wrapper.to_json();
    assert_eq!(value.get("task_type").unwrap().as_str(), Some("CreateOrder"));
    assert_eq!(value.get("state").unwrap().as_str(), Some("Pending"));
    assert_eq!(value.as_object().unwrap().len(), 2);
}

#[test]
fn settlement_states_roundtrip_with_their_payload() {
    let states = vec![
        (0, SettleInternalMatchTaskState::Pending),
        (1, SettleInternalMatchTaskState::SubmittingTx),
        (1, planned()),
        (2, updating()),
        (3, SettleInternalMatchTaskState::UpdatingValidityProofs),
        (4, SettleInternalMatchTaskState::Completed),
    ];
    let names = ["Pending", "SubmittingTx", "UpdatingState", "UpdatingValidityProofs", "Completed"];
    for (phase, state) in states {
        let unit = state == SettleInternalMatchTaskState::SubmittingTx;
        let wrapper: Wrapper = state.clone().wrapped();
        assert_eq!(wrapper.to_string(), names[phase]);
        assert_eq!(wrapper.committed(), phase >= 1);
        assert_eq!(wrapper.is_committing(), unit);
        assert_eq!(wrapper.completed(), phase == 4);

        let queued = QueuedTaskState::from(wrapper);
        match &queued {
            QueuedTaskState::Running { state, committed, .. } => {
                assert_eq!(state, names[phase]);
                assert_eq!(*committed, phase >= 1);
            },
            other => panic!("expected running state, got {other:?}"),
        }
        match Wrapper::from_queued_task_state(&queued) {
            Ok(Some(TaskStateWrapper::SettleInternalMatch(decoded))) => assert!(decoded == state),
            other => panic!("expected a settlement state, got {other:?}"),
        }
        let decoded = decode_task_state::<SettleInternalMatchTaskState>(&queued).unwrap().unwrap();
        assert!(decoded == state);
    }
}

#[test]
fn identifiers_are_persisted_as_hyphenated_text() {
    let value = transition().to_json();
    assert_eq!(
        value.get("account_id").unwrap().as_str(),
        Some("00000000-0000-0000-0000-000000000001")
    );
    assert_eq!(
        value.get("order_id").unwrap().as_str(),
        Some("00000000-0000-0000-0000-000000000007")
    );
    assert!(value.get("output_balance_before").unwrap().is_null());
    assert!(PartyStateTransition::from_json(&value).unwrap() == transition());
}

#[test]
fn an_identifier_is_read_in_any_of_its_forms() {
    let text = serde_json::to_string(&transition().to_json()).unwrap();
    let simple = text.replace(
        "00000000-0000-0000-0000-000000000001",
        "00000000000000000000000000000001",
    );
    let value: serde_json::Value = serde_json::from_str(&simple).unwrap();
    assert_eq!(PartyStateTransition::from_json(&value).unwrap().account_id, 1);

    let broken = text.replace("00000000-0000-0000-0000-000000000001", "not an identifier");
    let value: serde_json::Value = serde_json::from_str(&broken).unwrap();
    assert!(PartyStateTransition::from_json(&value).is_none());
}

#[test]
fn a_missing_balance_is_read_as_none() {
    let mut value = transition().to_json();
    value.as_object_mut().unwrap().remove("input_balance_before");
    let decoded = PartyStateTransition::from_json(&value).unwrap();
    assert!(decoded.input_balance_before.is_none());

    let mut value = transition().to_json();
    value.as_object_mut().unwrap().remove("order_after");
    assert!(PartyStateTransition::from_json(&value).is_none());
}

#[test]
fn a_payload_that_is_not_json_is_a_syntax_error() {
    let queued = with_payload("{");
    assert!(matches!(
        Wrapper::from_queued_task_state(&queued),
        Err(TaskStateDecodeError::Syntax(_))
    ));
    assert!(matches!(
        decode_task_state::<CreateOrderTaskState>(&queued),
        Err(TaskStateDecodeError::Syntax(_))
    ));
}

#[test]
fn a_payload_of_an_unknown_task_is_an_envelope_error() {
    for payload in [
        "{\"task_type\":\"Unknown\",\"state\":\"Creating\"}",
        "{\"state\":\"Creating\"}",
        "{\"task_type\":\"CreateOrder\"}",
        "3",
    ] {
        assert!(matches!(
            Wrapper::from_queued_task_state(&with_payload(payload)),
            Err(TaskStateDecodeError::Envelope)
        ));
    }
}

#[test]
fn a_payload_with_an_unknown_state_is_a_state_error() {
    let queued = with_payload("{\"task_type\":\"CreateOrder\",\"state\":\"Dancing\"}");
    assert!(matches!(
        Wrapper::from_queued_task_state(&queued),
        Err(TaskStateDecodeError::State)
    ));
    assert!(matches!(
        decode_task_state::<CreateOrderTaskState>(&queued),
        Err(TaskStateDecodeError::State)
    ));
}

#[test]
fn a_concrete_decoder_looks_at_the_state_alone() {
    let queued = with_payload("{\"task_type\":\"Withdraw\",\"state\":\"Creating\"}");
    let decoded = decode_task_state::<CreateOrderTaskState>(&queued).unwrap();
    assert_eq!(decoded, Some(CreateOrderTaskState::Creating));

    assert_eq!(decode_task_state::<CreateOrderTaskState>(&with_payload("{}")).unwrap(), None);
    assert_eq!(decode_task_state::<CreateOrderTaskState>(&with_payload("[1]")).unwrap(), None);
}

#[test]
fn a_task_that_is_not_running_carries_no_payload() {
    for queued in
        [QueuedTaskState::Queued, QueuedTaskState::Completed, QueuedTaskState::Failed]
    {
        assert!(!queued.is_running());
        assert!(queued.execution_state().is_none());
        assert!(Wrapper::from_queued_task_state(&queued).unwrap().is_none());
    }
}

#[test]
fn settlement_states_are_ordered_by_phase() {
    let pending = SettleInternalMatchTaskState::Pending;
    let completed = SettleInternalMatchTaskState::Completed;
    assert!(pending < SettleInternalMatchTaskState::SubmittingTx);
    assert!(SettleInternalMatchTaskState::SubmittingTx < updating());
    assert!(updating() < SettleInternalMatchTaskState::UpdatingValidityProofs);
    assert!(SettleInternalMatchTaskState::UpdatingValidityProofs < completed);
    assert!(updating() == updating());
    assert!(updating() != pending);
    assert!(planned() == planned());
    assert!(planned() != SettleInternalMatchTaskState::SubmittingTx);
    assert!(planned() < updating());
    assert!(planned() > pending);
}

#[test]
fn settlement_states_are_persisted_by_name() {
    let value = SettleInternalMatchTaskState::SubmittingTx.to_json();
    assert_eq!(value.as_str(), Some("SubmittingTx"));
    let value = updating().to_json();
    let parties = value.get("UpdatingState").unwrap();
    assert!(parties.get("party0").is_some());
    assert!(parties.get("party1").is_some());
    assert_eq!(
        parties.get("party0").unwrap().get("order_after").unwrap().get("ring").unwrap().as_str(),
        Some("Ring2")
    );
}

#[test]
fn a_record_may_be_an_array_of_its_fields() {
    let value = balance("0xaa", "c").to_json();
    let fields = vec![
        value.get("mint").unwrap().clone(),
        value.get("commitment").unwrap().clone(),
        value.get("details").unwrap().clone(),
    ];
    let array = serde_json::Value::Array(fields.clone());
    assert!(Balance::from_json(&array).unwrap() == balance("0xaa", "c"));
    let short = serde_json::Value::Array(fields[..2].to_vec());
    assert!(Balance::from_json(&short).is_none());

    let queued = with_payload("[\"CreateOrder\",\"Creating\"]");
    assert!(matches!(
        Wrapper::from_queued_task_state(&queued),
        Ok(Some(TaskStateWrapper::CreateOrder(CreateOrderTaskState::Creating)))
    ));
}

#[test]
fn a_state_without_a_payload_may_be_tagged() {
    let read = |text: &str| {
        let value: serde_json::Value = serde_json::from_str(text).unwrap();
        SettleInternalMatchTaskState::from_json(&value)
    };
    assert!(read("{\"Completed\":null}") == Some(SettleInternalMatchTaskState::Completed));
    assert!(read("{\"Completed\":1}").is_none());
    assert!(read("{\"Completed\":null,\"Pending\":null}").is_none());
    assert!(read("\"UpdatingState\"").is_none());
    assert!(read("7").is_none());
}

#[test]
fn an_order_is_read_back_as_it_was_written() {
    for ring in
        [PrivacyRing::Ring0, PrivacyRing::Ring1, PrivacyRing::Ring2, PrivacyRing::Ring3]
    {
        let written = order(ring, "c");
        assert!(Order::from_json(&written.to_json()).unwrap() == written);
    }
    let mut value = order(PrivacyRing::Ring1, "c").to_json();
    value.as_object_mut().unwrap().insert(
        "ring".to_string(),
        serde_json::Value::String("Ring9".to_string()),
    );
    assert!(Order::from_json(&value).is_none());
}

#[test]
fn a_payload_is_spelled_tag_first() {
    let wrapper: Wrapper =
        TaskStateWrapper::SettleInternalMatch(SettleInternalMatchTaskState::Pending);
    match QueuedTaskState::from(wrapper) {
        QueuedTaskState::Running { state, committed, execution_state } => {
            assert_eq!(state, "Pending");
            assert!(!committed);
            assert_eq!(
                execution_state.as_deref(),
                Some("{\"task_type\":\"SettleInternalMatch\",\"state\":\"Pending\"}")
            );
        },
        other => panic!("expected running state, got {other:?}"),
    }
}

#[test]
fn records_are_spelled_in_the_order_of_their_fields() {
    assert_eq!(
        serde_json::to_string(&balance("0xaa", "c\n").to_json()).unwrap(),
        "{\"mint\":\"0xaa\",\"commitment\":\"c\\n\",\"details\":\"amount \\\"5\\\"\"}"
    );
    let text = serde_json::to_string(&planned().to_json()).unwrap();
    assert!(text.starts_with(
        "{\"SubmittingTxPlanned\":{\"party0\":{\"account_id\":\"00000000-0000-0000-0000-000000000001\",\"order_id\":\"00000000-0000-0000-0000-000000000007\",\"order_before\":{\"id\":"
    ));
    assert!(text.contains("\"output_balance_before\":null,\"output_balance_after\":{\"mint\""));
}

#[test]
fn resumption_goes_by_commitment_and_payload() {
    let resumption = |queued: &QueuedTaskState| {
        plan_resumption::<SettleInternalMatchTaskState>(queued)
    };
    let queued = |state: SettleInternalMatchTaskState| {
        let wrapper: Wrapper = state.wrapped();
        QueuedTaskState::from(wrapper)
    };
    assert!(matches!(
        resumption(&queued(SettleInternalMatchTaskState::Pending)),
        Resumption::Fresh
    ));
    match resumption(&queued(planned())) {
        Resumption::Restore { state } => assert!(state == planned()),
        other => panic!("expected a restoration, got {other:?}"),
    }
    assert!(matches!(resumption(&QueuedTaskState::Queued), Resumption::Fresh));

    let without_payload = |committed: bool| QueuedTaskState::Running {
        state: "SubmittingTx".to_string(),
        committed,
        execution_state: None,
    };
    assert!(matches!(resumption(&without_payload(true)), Resumption::Refuse));
    assert!(matches!(resumption(&without_payload(false)), Resumption::Fresh));
    assert!(matches!(resumption(&with_payload("{")), Resumption::Refuse));
    assert!(without_payload(true).committed());
    assert!(!QueuedTaskState::Completed.committed());
}

#[test]
fn a_task_type_may_be_tagged_in_an_object() {
    for payload in [
        "{\"task_type\":{\"CreateOrder\":null},\"state\":\"Creating\"}",
        "{\"state\":\"Creating\",\"task_type\":{\"CreateOrder\":null}}",
        "{\"other\":[1],\"task_type\":\"CreateOrder\",\"state\":\"Creating\"}",
    ] {
        assert!(matches!(
            Wrapper::from_queued_task_state(&with_payload(payload)),
            Ok(Some(TaskStateWrapper::CreateOrder(CreateOrderTaskState::Creating)))
        ));
    }
    for payload in [
        "{\"task_type\":{\"CreateOrder\":1},\"state\":\"Creating\"}",
        "{\"task_type\":{\"CreateOrder\":null,\"Withdraw\":null},\"state\":\"Creating\"}",
        "{\"task_type\":{},\"state\":\"Creating\"}",
        "{\"task_type\":7,\"state\":\"Creating\"}",
        "[{\"CreateOrder\":null},\"Creating\"]",
    ] {
        assert!(matches!(
            Wrapper::from_queued_task_state(&with_payload(payload)),
            Err(TaskStateDecodeError::Envelope)
        ));
    }
}

#[test]
fn an_empty_payload_counts_where_the_state_comes_first() {
    let early = "{\"state\":{\"Completed\":{}},\"task_type\":\"SettleInternalMatch\"}";
    match Wrapper::from_queued_task_state(&with_payload(early)) {
        Ok(Some(TaskStateWrapper::SettleInternalMatch(state))) => {
            assert!(state == SettleInternalMatchTaskState::Completed);
        },
        other => panic!("expected a settlement state, got {other:?}"),
    }
    for payload in [
        "{\"task_type\":\"SettleInternalMatch\",\"state\":{\"Completed\":{}}}",
        "{\"state\":{\"Completed\":{\"a\":1}},\"task_type\":\"SettleInternalMatch\"}",
        "{\"state\":{\"UpdatingState\":{}},\"task_type\":\"SettleInternalMatch\"}",
        "{\"state\":{},\"task_type\":\"SettleInternalMatch\"}",
        "[\"SettleInternalMatch\",{\"Completed\":{}}]",
    ] {
        assert!(matches!(
            Wrapper::from_queued_task_state(&with_payload(payload)),
            Err(TaskStateDecodeError::State)
        ));
    }
}

#[test]
fn an_identifier_is_spelled_digit_by_digit() {
    let mut written = transition();
    written.account_id = 0x0123456789abcdef_fedcba9876543210;
    let value = written.to_json();
    assert_eq!(
        value.get("account_id").unwrap().as_str(),
        Some("01234567-89ab-cdef-fedc-ba9876543210")
    );
    assert!(PartyStateTransition::from_json(&value).unwrap() == written);
}
