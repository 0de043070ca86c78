use task_driver::account::{Balance, BalanceLocation, Order, PrivacyRing};
use task_driver::hooks::TaskHook;
use task_driver::settlement::error::{
    DarkpoolClientError, SettleInternalMatchTaskError, SettlementError, StateError,
    ValidityProofsError,
};
use task_driver::settlement::party::{
    MatchResult, PartyId, PartyLocalState, PartyStateTransition, SettlementObligation,
};
use task_driver::settlement::resume::resume;
use task_driver::settlement::service::{Action, Reply, SettledAuth};
use task_driver::settlement::state::SettleInternalMatchTaskState;
use task_driver::settlement::step::StepWork;
use task_driver::settlement::submission::{
    first_leg_finalized, sync_recovery_merkle_proofs, FirstLeg, Lookup, Submission, Transitions,
};
use task_driver::settlement::task::{
    SettleInternalMatchTask, SettleInternalMatchTaskDescriptor, TimestampedPrice,
};
use task_driver::settlement::update::{classify, LocalProgress, PartyUpdate};
use task_driver::settlement::validity::ValidityUpdate;
use task_driver::task_state::{QueuedTaskState, TaskStateWrapper, TaskStates};
use task_driver::traits::{Task, TaskError};

const ACCOUNT0: u128 = 10;
const ACCOUNT1: u128 = 11;
const ORDER0: u128 = 20;
const ORDER1: u128 = 21;

const NOT_FINALIZED: &str = "recovered settlement is still in SubmittingTx and chain finalization could not be proven; refusing to apply local state";

fn order(id: u128, ring: PrivacyRing, commitment: &str) -> Order {
    Order {
        id,
        ring,
        input_token: format!("in{id}"),
        output_token: format!("out{id}"),
        commitment: commitment.to_string(),
        details: "{}".to_string(),
    }
}

fn balance(mint: &str, commitment: &str) -> Balance {
    Balance {
        mint: mint.to_string(),
        commitment: commitment.to_string(),
        details: "{}".to_string(),
    }
}

fn obligation(amount_in: u128) -> SettlementObligation {
    SettlementObligation {
        input_token: "a".to_string(),
        output_token: "b".to_string(),
        amount_in,
        amount_out: 2 * amount_in,
    }
}

fn descriptor() -> SettleInternalMatchTaskDescriptor {
    SettleInternalMatchTaskDescriptor {
        account_id: ACCOUNT0,
        other_account_id: ACCOUNT1,
        order_id: ORDER0,
        other_order_id: ORDER1,
        execution_price: TimestampedPrice { price: "1.5".to_string(), timestamp: 3 },
        match_result: MatchResult {
            party0_obligation: obligation(5),
            party1_obligation: obligation(6),
        },
    }
}

fn task() -> SettleInternalMatchTask {
    SettleInternalMatchTask::new(descriptor()).unwrap()
}

/// The states of all tasks, of which only the settlement's matters here.
struct States;

impl TaskStates for States {
    type CreateNewAccount = SettleInternalMatchTaskState;
    type NodeStartup = SettleInternalMatchTaskState;
    type Deposit = SettleInternalMatchTaskState;
    type CreateBalance = SettleInternalMatchTaskState;
    type CreateOrder = SettleInternalMatchTaskState;
    type CancelOrder = SettleInternalMatchTaskState;
    type RefreshAccount = SettleInternalMatchTaskState;
    type SettleExternalMatch = SettleInternalMatchTaskState;
    type SettlePrivateMatch = SettleInternalMatchTaskState;
    type Withdraw = SettleInternalMatchTaskState;
}

fn state_error(text: &str) -> SettleInternalMatchTaskError {
    SettleInternalMatchTaskError::State(text.to_string())
}

/// The services around a settlement.
struct World {
    rings: [PrivacyRing; 2],
    chain: Vec<String>,
    calls: Vec<Action>,
    /// The name of the call that fails
    broken: Option<String>,
    /// Whether the local leg has been applied
    applied: bool,
    /// Whether EOA balances are locally managed
    eoa: bool,
    /// The states that were persisted
    persisted: Vec<SettleInternalMatchTaskState>,
}

impl World {
    fn new(ring0: PrivacyRing, ring1: PrivacyRing) -> Self {
        World {
            rings: [ring0, ring1],
            chain: vec![],
            calls: vec![],
            broken: None,
            applied: false,
            eoa: false,
            persisted: vec![],
        }
    }

    fn order_now(&self, id: u128, updated: bool) -> Order {
        let ring = self.rings[(id - ORDER0) as usize];
        order(id, ring, &format!("{}{id}", if updated { "new" } else { "old" }))
    }

    fn balance_now(&self, account: u128, token: &str, updated: bool) -> Balance {
        balance(token, &format!("{}{account}{token}", if updated { "new" } else { "old" }))
    }

    fn name(action: &Action) -> String {
        format!("{action:?}").split([' ', '{']).next().unwrap().to_string()
    }

    fn names(&self) -> Vec<String> {
        self.calls.iter().map(World::name).collect()
    }

    fn perform(&mut self, action: Action) -> Result<Reply, SettleInternalMatchTaskError> {
        let broken = self.broken.as_deref() == Some(World::name(&action).as_str());
        let reply = match &action {
            _ if broken => Err(state_error("broken")),
            Action::ReadOrder { order_id } => {
                Ok(Reply::Order(self.order_now(*order_id, self.applied)))
            },
            Action::ReadBalance { account_id, token, location } => {
                let stored = *location == BalanceLocation::Darkpool || self.eoa;
                Ok(Reply::StoredBalance(if stored {
                    Some(self.balance_now(*account_id, token, self.applied))
                } else {
                    None
                }))
            },
            Action::BuildUpdatedIntent { order_id, .. } => {
                Ok(Reply::Order(self.order_now(*order_id, true)))
            },
            Action::BuildInputBalance { account_id, .. } => {
                let token = format!("in{}", account_id - ACCOUNT0 + ORDER0);
                Ok(Reply::BuiltBalance(self.balance_now(*account_id, &token, true)))
            },
            Action::BuildOutputBalance { account_id, order, .. } => Ok(Reply::BuiltBalance(
                self.balance_now(*account_id, &order.output_token, true),
            )),
            Action::BuildEoaBalance { account_id, balance, .. } => Ok(Reply::BuiltBalance(
                self.balance_now(*account_id, &balance.mint, true),
            )),
            Action::BuildBundle { order_id, .. } => Ok(Reply::Bundle(*order_id as u64)),
            Action::PersistState { state } => {
                self.persisted.push(state.clone());
                Ok(Reply::Done)
            },
            Action::FindCommitment { commitment } => {
                if self.chain.contains(commitment) {
                    Ok(Reply::Done)
                } else {
                    Err(SettleInternalMatchTaskError::Darkpool("not found".to_string()))
                }
            },
            Action::ReadSettledAuth { .. } => Ok(Reply::Auth(SettledAuth {
                intent_signature: "sig0".to_string(),
                output_balance_signature: "sig1".to_string(),
            })),
            _ => Ok(Reply::Done),
        };
        if let Ok(reply) = &reply {
            assert!(action.accepts(reply));
        }
        self.calls.push(action);
        reply
    }

    fn submit(
        &mut self,
        task: &mut SettleInternalMatchTask,
    ) -> Result<Submission, SettleInternalMatchTaskError> {
        let mut submission = Submission::start(task)?;
        while !matches!(submission, Submission::Ready { .. }) {
            let action = submission.action(task);
            let reply = self.perform(action);
            submission = submission.advance(task, reply)?;
        }
        Ok(submission)
    }

    fn update(
        &mut self,
        task: &SettleInternalMatchTask,
        party: PartyId,
        transition: PartyStateTransition,
    ) -> Result<PartyUpdate, SettleInternalMatchTaskError> {
        let mut update = PartyUpdate::start(transition);
        while !matches!(update, PartyUpdate::Applied) {
            let action = update.action(task, party);
            let reply = self.perform(action);
            update = update.update_state_for_party(task, party, reply)?;
        }
        Ok(update)
    }

    fn prove(
        &mut self,
        task: &SettleInternalMatchTask,
        party: PartyId,
    ) -> Result<ValidityUpdate, SettleInternalMatchTaskError> {
        let mut update = ValidityUpdate::start();
        while !matches!(update, ValidityUpdate::Proven) {
            let action = update.action(task, party);
            let reply = self.perform(action);
            update = update.update_validity_proofs_for_party(task, party, reply)?;
        }
        Ok(update)
    }
}

fn transitions(submission: Submission) -> Transitions {
    match submission {
        Submission::Ready { transitions } => transitions,
        other => panic!("expected the end, got {other:?}"),
    }
}

fn submitting() -> SettleInternalMatchTask {
    let mut task = task();
    assert!(matches!(task.step(), Ok(StepWork::Done)));
    assert!(matches!(task.task_state, SettleInternalMatchTaskState::SubmittingTx));
    assert!(!task.restored_from_queue);
    task
}

/// The state that a submission persists before it submits.
fn planned(ring0: PrivacyRing, ring1: PrivacyRing) -> SettleInternalMatchTaskState {
    let mut world = World::new(ring0, ring1);
    world.submit(&mut submitting()).unwrap();
    assert_eq!(world.persisted.len(), 1);
    world.persisted.pop().unwrap()
}

/// A task that was restored from what a submission has persisted.
fn recovering(ring0: PrivacyRing, ring1: PrivacyRing) -> SettleInternalMatchTask {
    let task =
        SettleInternalMatchTask::restore(descriptor(), Some(planned(ring0, ring1))).unwrap();
    assert!(task.restored_from_queue);
    task
}

#[test]
fn a_new_task_is_pending() {
    let task = task();
    assert_eq!(task.account_id, ACCOUNT0);
    assert_eq!(task.other_order_id, ORDER1);
    assert_eq!(task.execution_price.timestamp, 3);
    assert!(task.updated_order0.is_none());
    assert!(task.updated_output_balance1.is_none());
    assert!(matches!(task.task_state(), SettleInternalMatchTaskState::Pending));
    assert!(!task.restored_from_queue);
    assert!(!task.completed());
    assert!(!task.bypass_task_queue());
    assert_eq!(task.name(), "settle-internal-match");
    assert_eq!(task.get_obligation(PartyId::Party0).amount_in, 5);
    assert_eq!(task.get_obligation(PartyId::Party1).amount_in, 6);
}

#[test]
fn hooks_name_both_parties() {
    let task = task();
    let hooks = task.success_hooks();
    assert_eq!(hooks.len(), 2);
    match &hooks[0] {
        TaskHook::RunMatchingEngine { account_id, order_ids } => {
            assert_eq!(*account_id, ACCOUNT0);
            assert_eq!(*order_ids, vec![ORDER0]);
        },
        other => panic!("expected an engine run, got {other:?}"),
    }
    match &hooks[1] {
        TaskHook::RunMatchingEngine { account_id, order_ids } => {
            assert_eq!(*account_id, ACCOUNT1);
            assert_eq!(*order_ids, vec![ORDER1]);
        },
        other => panic!("expected an engine run, got {other:?}"),
    }
    match &task.failure_hooks()[..] {
        [TaskHook::RefreshAccount { account_ids }] => {
            assert_eq!(*account_ids, vec![ACCOUNT0, ACCOUNT1]);
        },
        other => panic!("expected a refresh, got {other:?}"),
    }
}

#[test]
fn a_fresh_match_of_private_orders_is_submitted_once() {
    let mut task = submitting();
    let mut world = World::new(PrivacyRing::Ring2, PrivacyRing::Ring2);
    let transitions = transitions(world.submit(&mut task).unwrap());
    assert_eq!(
        world.names(),
        [
            "ReadOrder",
            "ReadBalance",
            "ReadBalance",
            "ReadOrder",
            "ReadBalance",
            "ReadBalance",
            "BuildBundle",
            "BuildBundle",
            "BuildUpdatedIntent",
            "BuildUpdatedIntent",
            "BuildInputBalance",
            "BuildOutputBalance",
            "BuildInputBalance",
            "BuildOutputBalance",
            "PersistState",
            "SettleMatch",
            "StoreReceiptProofs",
        ]
    );
    assert_eq!(transitions.party0.order_before.commitment, "old20");
    assert_eq!(transitions.party0.order_after.commitment, "new20");
    assert_eq!(transitions.party0.account_id, ACCOUNT0);
    assert_eq!(transitions.party1.order_id, ORDER1);
    assert_eq!(transitions.party1.input_balance_before.unwrap().commitment, "old11in21");
    assert_eq!(transitions.party1.input_balance_after.unwrap().commitment, "new11in21");
    assert_eq!(transitions.party1.output_balance_before.unwrap().commitment, "old11out21");
    assert_eq!(transitions.party1.output_balance_after.unwrap().commitment, "new11out21");
    match &world.calls[16] {
        Action::StoreReceiptProofs { party0, party1 } => {
            assert_eq!(party0.order.commitment, "new20");
            let balances = party1.balances.as_ref().unwrap();
            assert_eq!(balances.account_id, ACCOUNT1);
            assert_eq!(balances.input_balance.commitment, "new11in21");
            assert_eq!(balances.output_balance.commitment, "new11out21");
        },
        other => panic!("expected proofs to be stored, got {other:?}"),
    }
    match &world.calls[15] {
        Action::SettleMatch { match_result, bundle0, bundle1 } => {
            assert_eq!(match_result.party0_obligation.amount_in, 5);
            assert_eq!((*bundle0, *bundle1), (20, 21));
        },
        other => panic!("expected the match to be settled, got {other:?}"),
    }
    assert!(matches!(
        task.task_state,
        SettleInternalMatchTaskState::SubmittingTxPlanned { .. }
    ));
    match &world.calls[11] {
        Action::BuildOutputBalance { account_id, order, obligation, apply_fees } => {
            assert_eq!(*account_id, ACCOUNT0);
            assert_eq!(order.commitment, "new20");
            assert_eq!(obligation.amount_in, 5);
            assert!(!*apply_fees);
        },
        other => panic!("expected a balance to be built, got {other:?}"),
    }
}

#[test]
fn a_fresh_match_of_public_orders_has_no_balances() {
    let mut task = submitting();
    let mut world = World::new(PrivacyRing::Ring0, PrivacyRing::Ring1);
    let transitions = transitions(world.submit(&mut task).unwrap());
    assert_eq!(
        world.names(),
        [
            "ReadOrder",
            "ReadBalance",
            "ReadOrder",
            "ReadBalance",
            "BuildBundle",
            "BuildBundle",
            "BuildUpdatedIntent",
            "BuildUpdatedIntent",
            "PersistState",
            "SettleMatch",
            "StoreReceiptProofs",
        ]
    );
    assert!(transitions.party0.input_balance_after.is_none());
    assert!(transitions.party1.output_balance_after.is_none());
    match &world.calls[10] {
        Action::StoreReceiptProofs { party0, party1 } => {
            assert!(party0.balances.is_none());
            assert!(party1.balances.is_none());
        },
        other => panic!("expected proofs to be stored, got {other:?}"),
    }
}

#[test]
fn a_failed_call_ends_the_submission() {
    for call in [
        "ReadOrder",
        "ReadBalance",
        "BuildBundle",
        "BuildUpdatedIntent",
        "PersistState",
        "SettleMatch",
        "StoreReceiptProofs",
    ] {
        let mut task = submitting();
        let mut world = World::new(PrivacyRing::Ring1, PrivacyRing::Ring1);
        world.broken = Some(call.to_string());
        let error = world.submit(&mut task).unwrap_err();
        assert!(error.retryable());
        assert_eq!(error.to_string(), "state error: broken");
        assert_eq!(world.names().last().unwrap(), call);
        let planned =
            matches!(task.task_state, SettleInternalMatchTaskState::SubmittingTxPlanned { .. });
        assert_eq!(planned, call == "SettleMatch" || call == "StoreReceiptProofs");
    }
}

#[test]
fn a_recovered_match_is_proven_and_never_submitted() {
    let mut task = recovering(PrivacyRing::Ring2, PrivacyRing::Ring1);
    let mut world = World::new(PrivacyRing::Ring2, PrivacyRing::Ring1);
    for commitment in ["new20", "new10in20", "new10out20", "new21"] {
        world.chain.push(commitment.to_string());
    }
    let transitions = transitions(world.submit(&mut task).unwrap());
    assert_eq!(
        world.names(),
        [
            "FindCommitment",
            "FindCommitment",
            "FindCommitment",
            "FindCommitment",
            "SyncIntentProof",
            "SyncBalanceProof",
            "SyncBalanceProof",
            "SyncIntentProof",
        ]
    );
    assert_eq!(transitions.party0.order_after.commitment, "new20");
    match &world.calls[5] {
        Action::SyncBalanceProof { account_id, mint, commitment } => {
            assert_eq!(*account_id, ACCOUNT0);
            assert_eq!(mint, "in20");
            assert_eq!(commitment, "new10in20");
        },
        other => panic!("expected a proof to be fetched, got {other:?}"),
    }
}

#[test]
fn a_recovered_match_without_proof_is_refused() {
    let all = ["new20", "new10in20", "new10out20", "new21"];
    for missing in all {
        let mut task = recovering(PrivacyRing::Ring2, PrivacyRing::Ring1);
        let mut world = World::new(PrivacyRing::Ring2, PrivacyRing::Ring1);
        for commitment in all {
            if commitment != missing {
                world.chain.push(commitment.to_string());
            }
        }
        match world.submit(&mut task) {
            Err(SettleInternalMatchTaskError::Settlement(text)) => assert_eq!(text, NOT_FINALIZED),
            other => panic!("expected a refusal, got {other:?}"),
        }
        assert!(!world.names().contains(&"SettleMatch".to_string()));
        assert!(!world.names().contains(&"SyncIntentProof".to_string()));
        assert!(task.restored_from_queue);
    }
}

#[test]
fn a_recovered_match_of_a_public_order_is_refused_without_a_lookup() {
    let mut task = recovering(PrivacyRing::Ring0, PrivacyRing::Ring1);
    let mut world = World::new(PrivacyRing::Ring0, PrivacyRing::Ring1);
    world.chain.push("new20".to_string());
    world.chain.push("new21".to_string());
    let error = world.submit(&mut task).unwrap_err();
    assert!(!error.retryable());
    assert_eq!(error.to_string(), format!("settlement error: {NOT_FINALIZED}"));
    assert!(!world.names().contains(&"FindCommitment".to_string()));
}

#[test]
fn a_recovery_takes_at_most_twelve_calls() {
    let mut task = recovering(PrivacyRing::Ring2, PrivacyRing::Ring2);
    let mut world = World::new(PrivacyRing::Ring2, PrivacyRing::Ring2);
    for commitment in ["new20", "new10in20", "new10out20", "new21", "new11in21", "new11out21"] {
        world.chain.push(commitment.to_string());
    }
    world.submit(&mut task).unwrap();
    assert_eq!(world.calls.len(), 12);
}

#[test]
fn lookups_decide_the_first_leg() {
    let private = transition(PrivacyRing::Ring2);
    assert!(matches!(
        first_leg_finalized(&private, Lookup::Order, true),
        FirstLeg::Unknown { lookup: Lookup::InputBalance }
    ));
    assert!(matches!(
        first_leg_finalized(&private, Lookup::InputBalance, false),
        FirstLeg::Unknown { lookup: Lookup::OutputBalance { input_found: false } }
    ));
    assert!(matches!(
        first_leg_finalized(&private, Lookup::OutputBalance { input_found: false }, true),
        FirstLeg::Known { finalized: false }
    ));
    assert!(matches!(
        first_leg_finalized(&private, Lookup::OutputBalance { input_found: true }, true),
        FirstLeg::Known { finalized: true }
    ));
    assert!(matches!(
        first_leg_finalized(&transition(PrivacyRing::Ring3), Lookup::Order, true),
        FirstLeg::Known { finalized: true }
    ));
    assert!(sync_recovery_merkle_proofs(&transition(PrivacyRing::Ring0)).is_empty());
    assert_eq!(sync_recovery_merkle_proofs(&transition(PrivacyRing::Ring3)).len(), 1);
    assert_eq!(sync_recovery_merkle_proofs(&private).len(), 3);
}

fn transition(ring: PrivacyRing) -> PartyStateTransition {
    let private = ring == PrivacyRing::Ring2;
    PartyStateTransition {
        account_id: ACCOUNT0,
        order_id: ORDER0,
        order_before: order(ORDER0, ring, "old20"),
        order_after: order(ORDER0, ring, "new20"),
        input_balance_before: if private { Some(balance("in20", "old10in20")) } else { None },
        input_balance_after: if private { Some(balance("in20", "new10in20")) } else { None },
        output_balance_before: if private { Some(balance("out20", "old10out20")) } else { None },
        output_balance_after: if private { Some(balance("out20", "new10out20")) } else { None },
    }
}

#[test]
fn a_local_state_is_classified_against_a_transition() {
    let transition = transition(PrivacyRing::Ring2);
    let before = PartyLocalState::from_before(&transition);
    let after = PartyLocalState::from_after(&transition);
    assert_eq!(classify(&transition, &before), LocalProgress::NotApplied);
    assert_eq!(classify(&transition, &after), LocalProgress::AlreadyApplied);

    let mut partial = before.clone();
    partial.input_balance = after.input_balance.clone();
    assert_eq!(classify(&transition, &partial), LocalProgress::Unexpected);
    let mut other = after.clone();
    other.order.details = "changed".to_string();
    assert_eq!(classify(&transition, &other), LocalProgress::Unexpected);
    assert!(before != after);
    assert!(before.clone() == before);
}

#[test]
fn a_transition_is_applied_once() {
    let task = task();
    let mut world = World::new(PrivacyRing::Ring2, PrivacyRing::Ring2);
    world.update(&task, PartyId::Party0, transition(PrivacyRing::Ring2)).unwrap();
    assert_eq!(
        world.names(),
        ["ReadOrder", "ReadBalance", "ReadBalance", "WriteBalances", "WriteOrder"]
    );
    match &world.calls[3] {
        Action::WriteBalances { account_id, order, obligation, balances, eoa_balance } => {
            assert!(eoa_balance.is_none());
            assert_eq!(*account_id, ACCOUNT0);
            assert_eq!(order.commitment, "new20");
            assert_eq!(obligation.amount_in, 5);
            let (input, output) = balances.as_ref().unwrap();
            assert_eq!(input.commitment, "new10in20");
            assert_eq!(output.commitment, "new10out20");
        },
        other => panic!("expected balances to be written, got {other:?}"),
    }

    // A second run finds the transition applied, and writes nothing
    world.applied = true;
    world.calls.clear();
    world.update(&task, PartyId::Party0, transition(PrivacyRing::Ring2)).unwrap();
    assert_eq!(world.names(), ["ReadOrder", "ReadBalance", "ReadBalance"]);
}

#[test]
fn a_public_transition_leaves_the_balances_to_the_obligation() {
    let task = task();
    let mut world = World::new(PrivacyRing::Ring1, PrivacyRing::Ring1);
    world.update(&task, PartyId::Party0, transition(PrivacyRing::Ring1)).unwrap();
    assert_eq!(world.names(), ["ReadOrder", "ReadBalance", "WriteBalances", "WriteOrder"]);
    match &world.calls[2] {
        Action::WriteBalances { balances, eoa_balance, .. } => {
            assert!(balances.is_none());
            assert!(eoa_balance.is_none());
        },
        other => panic!("expected balances to be written, got {other:?}"),
    }
}

#[test]
fn an_unexpected_local_state_is_refused() {
    let task = task();
    let mut world = World::new(PrivacyRing::Ring2, PrivacyRing::Ring2);
    let mut transition = transition(PrivacyRing::Ring2);
    transition.order_before.details = "something else".to_string();
    match world.update(&task, PartyId::Party0, transition) {
        Err(SettleInternalMatchTaskError::Settlement(text)) => assert_eq!(
            text,
            "recovered settlement for order 00000000-0000-0000-0000-000000000014 is in an unexpected local state; refusing to replay"
        ),
        other => panic!("expected a refusal, got {other:?}"),
    }
    assert_eq!(world.names(), ["ReadOrder", "ReadBalance", "ReadBalance"]);
}

#[test]
fn a_failed_write_ends_the_local_leg() {
    let task = task();
    let mut world = World::new(PrivacyRing::Ring2, PrivacyRing::Ring2);
    world.broken = Some("WriteBalances".to_string());
    let error = world.update(&task, PartyId::Party0, transition(PrivacyRing::Ring2)).unwrap_err();
    assert_eq!(error.to_string(), "state error: broken");
    assert_eq!(world.names().last().unwrap(), "WriteBalances");
}

#[test]
fn validity_proofs_follow_the_ring() {
    let task = task();
    let mut world = World::new(PrivacyRing::Ring0, PrivacyRing::Ring1);
    world.prove(&task, PartyId::Party0).unwrap();
    assert_eq!(world.names(), ["ReadOrder"]);

    world.calls.clear();
    world.prove(&task, PartyId::Party1).unwrap();
    assert_eq!(world.names(), ["ReadOrder", "ProveIntentOnly"]);

    let mut world = World::new(PrivacyRing::Ring2, PrivacyRing::Ring2);
    world.prove(&task, PartyId::Party1).unwrap();
    assert_eq!(
        world.names(),
        ["ReadOrder", "ReadSettledAuth", "ProveIntentAndBalance", "ProveOutputBalance"]
    );
    match &world.calls[2] {
        Action::ProveIntentAndBalance { account_id, order_id, signature } => {
            assert_eq!((*account_id, *order_id), (ACCOUNT1, ORDER1));
            assert_eq!(signature, "sig0");
        },
        other => panic!("expected a proof, got {other:?}"),
    }
    match &world.calls[3] {
        Action::ProveOutputBalance { signature, force, .. } => {
            assert_eq!(signature, "sig1");
            assert!(!*force);
        },
        other => panic!("expected a proof, got {other:?}"),
    }
}

#[test]
fn a_failed_proof_is_passed_on() {
    let task = task();
    let mut world = World::new(PrivacyRing::Ring1, PrivacyRing::Ring1);
    world.broken = Some("ProveIntentOnly".to_string());
    assert!(world.prove(&task, PartyId::Party0).is_err());
}

#[test]
fn a_settlement_runs_through_its_states() {
    let mut task = submitting();
    let mut world = World::new(PrivacyRing::Ring2, PrivacyRing::Ring1);
    assert!(matches!(task.step(), Ok(StepWork::Submit { .. })));
    let submission = world.submit(&mut task).unwrap();
    task.finish_submission(submission);
    assert!(matches!(task.task_state, SettleInternalMatchTaskState::UpdatingState { .. }));

    let (transition0, transition1) = match task.step() {
        Ok(StepWork::UpdateState {
            updates:
                (
                    PartyUpdate::Capturing { transition: transition0, .. },
                    PartyUpdate::Capturing { transition: transition1, .. },
                ),
        }) => (transition0, transition1),
        other => panic!("expected the local leg, got {other:?}"),
    };
    let update0 = world.update(&task, PartyId::Party0, transition0).unwrap();
    let update1 = world.update(&task, PartyId::Party1, transition1).unwrap();
    task.finish_update(update0, update1);
    assert!(matches!(task.task_state, SettleInternalMatchTaskState::UpdatingValidityProofs));

    assert!(matches!(task.step(), Ok(StepWork::UpdateValidityProofs { .. })));
    let proof0 = world.prove(&task, PartyId::Party0).unwrap();
    let proof1 = world.prove(&task, PartyId::Party1).unwrap();
    let volume = task.finish_validity_proofs(proof0, proof1);
    assert!(task.completed());
    assert!(!volume.is_external_match);
    assert_eq!(volume.account_ids, vec![ACCOUNT0, ACCOUNT1]);
    assert_eq!(volume.match_result.party1_obligation.amount_in, 6);
}

#[test]
fn a_finished_submission_is_no_longer_a_recovery() {
    let mut task = recovering(PrivacyRing::Ring1, PrivacyRing::Ring1);
    let mut world = World::new(PrivacyRing::Ring1, PrivacyRing::Ring1);
    world.chain.push("new20".to_string());
    world.chain.push("new21".to_string());
    let submission = world.submit(&mut task).unwrap();
    task.finish_submission(submission);
    assert!(!task.restored_from_queue);
}

#[test]
fn restoring_takes_up_the_persisted_transitions() {
    let descriptor = SettleInternalMatchTaskDescriptor {
        account_id: ACCOUNT0,
        other_account_id: ACCOUNT1,
        order_id: ORDER0,
        other_order_id: ORDER1,
        execution_price: TimestampedPrice { price: "1".to_string(), timestamp: 0 },
        match_result: MatchResult {
            party0_obligation: obligation(1),
            party1_obligation: obligation(1),
        },
    };
    let state = SettleInternalMatchTaskState::UpdatingState {
        party0: transition(PrivacyRing::Ring2),
        party1: transition(PrivacyRing::Ring1),
    };
    let task = SettleInternalMatchTask::restore(descriptor, Some(state.clone())).unwrap();
    assert!(task.task_state == state);
    assert!(task.restored_from_queue);
    assert!(task.updated_order0 == Some(transition(PrivacyRing::Ring2).order_after));
    assert!(task.updated_order1 == Some(transition(PrivacyRing::Ring1).order_after));
    assert_eq!(task.updated_input_balance0.as_ref().unwrap().commitment, "new10in20");
    assert_eq!(task.updated_output_balance0.as_ref().unwrap().commitment, "new10out20");
    assert!(task.updated_input_balance1.is_none());
}

#[test]
fn a_transition_needs_the_updated_order() {
    let mut task = task();
    let before = PartyLocalState::from_before(&transition(PrivacyRing::Ring2));
    match task.build_state_transition(PartyId::Party0, before.clone()) {
        Err(SettleInternalMatchTaskError::Settlement(text)) => assert_eq!(
            text,
            "updated order missing while building settlement recovery state"
        ),
        other => panic!("expected a refusal, got {other:?}"),
    }
    task.updated_order0 = Some(order(ORDER0, PrivacyRing::Ring2, "new20"));
    let built = task.build_state_transition(PartyId::Party0, before).unwrap();
    assert_eq!(built.order_after.commitment, "new20");
    assert_eq!(built.order_before.commitment, "old20");
    assert!(built.input_balance_after.is_none());
}

#[test]
fn receipt_proofs_cover_the_balances_of_private_orders() {
    let mut task = task();
    task.updated_order0 = Some(order(ORDER0, PrivacyRing::Ring1, "new20"));
    let proofs = task.update_merkle_proof_for_party(PartyId::Party0);
    assert_eq!(proofs.order.commitment, "new20");
    assert!(proofs.balances.is_none());

    task.updated_order1 = Some(order(ORDER1, PrivacyRing::Ring2, "new21"));
    task.updated_input_balance1 = Some(balance("in21", "new11in21"));
    task.updated_output_balance1 = Some(balance("out21", "new11out21"));
    let proofs = task.update_merkle_proof_for_party(PartyId::Party1);
    assert_eq!(proofs.balances.unwrap().account_id, ACCOUNT1);
}

#[test]
fn only_state_errors_are_retryable() {
    let text = "x".to_string();
    assert!(SettleInternalMatchTaskError::State(text.clone()).retryable());
    let darkpool = SettleInternalMatchTaskError::Darkpool(text.clone());
    assert!(!darkpool.retryable());
    assert_eq!(darkpool.to_string(), "darkpool client error: x");
    let settlement = SettleInternalMatchTaskError::Settlement(text.clone());
    assert!(!settlement.retryable());
    assert_eq!(settlement.to_string(), "settlement error: x");
    let proofs = SettleInternalMatchTaskError::ValidityProofs(text);
    assert!(!proofs.retryable());
    assert_eq!(proofs.to_string(), "validity proof error: x");
}

#[test]
fn a_reply_must_answer_its_call() {
    let call = Action::ReadOrder { order_id: ORDER0 };
    assert!(call.accepts(&Reply::Order(order(ORDER0, PrivacyRing::Ring0, "c"))));
    assert!(!call.accepts(&Reply::Done));
    let call = Action::FindCommitment { commitment: "c".to_string() };
    assert!(call.accepts(&Reply::Done));
    assert!(!call.accepts(&Reply::StoredBalance(None)));
}

#[test]
fn an_error_is_told_by_its_source() {
    let text = "x".to_string();
    for source in [SettlementError::darkpool("x"), SettlementError::state(text.clone())] {
        assert_eq!(source.to_string(), "x");
        let settlement = SettleInternalMatchTaskError::from(source);
        assert_eq!(settlement.to_string(), "settlement error: x");
        assert!(!settlement.retryable());
    }
    let state = SettleInternalMatchTaskError::from(StateError { text: text.clone() });
    assert_eq!(state.to_string(), "state error: x");
    assert!(state.retryable());
    let darkpool = SettleInternalMatchTaskError::from(DarkpoolClientError { text: text.clone() });
    assert_eq!(darkpool.to_string(), "darkpool client error: x");
    assert!(!darkpool.retryable());
    let proofs = SettleInternalMatchTaskError::from(ValidityProofsError { text });
    assert_eq!(proofs.to_string(), "validity proof error: x");
    assert!(!proofs.retryable());
}

#[test]
fn a_restored_task_without_a_plan_is_refused() {
    let state = SettleInternalMatchTaskState::SubmittingTx;
    let mut task = SettleInternalMatchTask::restore(descriptor(), Some(state)).unwrap();
    match task.step() {
        Err(SettleInternalMatchTaskError::Settlement(text)) => assert_eq!(text, NOT_FINALIZED),
        other => panic!("expected a refusal, got {other:?}"),
    }
    assert!(matches!(task.task_state, SettleInternalMatchTaskState::SubmittingTx));
}

#[test]
fn a_plan_without_its_balances_is_refused() {
    let mut party0 = transition(PrivacyRing::Ring2);
    party0.output_balance_after = None;
    let state = SettleInternalMatchTaskState::SubmittingTxPlanned {
        party0,
        party1: transition(PrivacyRing::Ring1),
    };
    let mut task = SettleInternalMatchTask::restore(descriptor(), Some(state)).unwrap();
    assert!(task.step().is_err());
}

#[test]
fn recoveries_of_one_plan_agree_whatever_the_local_rows() {
    let state = planned(PrivacyRing::Ring1, PrivacyRing::Ring2);
    let mut outcomes = vec![];
    for applied in [false, true] {
        let mut task =
            SettleInternalMatchTask::restore(descriptor(), Some(state.clone())).unwrap();
        let mut world = World::new(PrivacyRing::Ring1, PrivacyRing::Ring2);
        world.applied = applied;
        for commitment in ["new20", "new21", "new11in21", "new11out21"] {
            world.chain.push(commitment.to_string());
        }
        outcomes.push(transitions(world.submit(&mut task).unwrap()));
    }
    assert!(outcomes[0].party0 == outcomes[1].party0);
    assert!(outcomes[0].party1 == outcomes[1].party1);
    match state {
        SettleInternalMatchTaskState::SubmittingTxPlanned { party0, party1 } => {
            assert!(outcomes[0].party0 == party0);
            assert!(outcomes[0].party1 == party1);
        },
        other => panic!("expected a plan, got {other:?}"),
    }
}

#[test]
fn a_match_is_not_submitted_again_after_a_failure() {
    let mut task = submitting();
    let mut world = World::new(PrivacyRing::Ring1, PrivacyRing::Ring1);
    world.broken = Some("StoreReceiptProofs".to_string());
    assert!(world.submit(&mut task).unwrap_err().retryable());

    world.broken = None;
    world.calls.clear();
    world.chain.push("new20".to_string());
    world.chain.push("new21".to_string());
    world.submit(&mut task).unwrap();
    assert!(!world.names().contains(&"SettleMatch".to_string()));
}

#[test]
fn an_eoa_transition_is_applied_once() {
    for ring in [PrivacyRing::Ring0, PrivacyRing::Ring1] {
        let mut task = submitting();
        let mut world = World::new(ring, ring);
        world.eoa = true;
        let transitions = transitions(world.submit(&mut task).unwrap());
        assert_eq!(world.names().iter().filter(|name| *name == "BuildEoaBalance").count(), 2);
        assert!(transitions.party0.output_balance_after.is_none());
        assert_eq!(
            transitions.party0.input_balance_after.as_ref().unwrap().commitment,
            "new10in20"
        );

        world.calls.clear();
        world.update(&task, PartyId::Party0, transitions.party0.clone()).unwrap();
        assert_eq!(world.names(), ["ReadOrder", "ReadBalance", "WriteBalances", "WriteOrder"]);
        match &world.calls[2] {
            Action::WriteBalances { balances, eoa_balance, .. } => {
                assert!(balances.is_none());
                assert_eq!(eoa_balance.as_ref().unwrap().commitment, "new10in20");
            },
            other => panic!("expected balances to be written, got {other:?}"),
        }

        world.applied = true;
        world.calls.clear();
        world.update(&task, PartyId::Party0, transitions.party0).unwrap();
        assert_eq!(world.names(), ["ReadOrder", "ReadBalance"]);
    }
}

fn queued(state: SettleInternalMatchTaskState) -> QueuedTaskState {
    let wrapper: TaskStateWrapper<States> = TaskStateWrapper::from(state);
    QueuedTaskState::from(wrapper)
}

#[test]
fn a_queued_settlement_is_resumed_from_its_payload() {
    let state = planned(PrivacyRing::Ring2, PrivacyRing::Ring1);
    let task = resume(descriptor(), &queued(state.clone())).unwrap();
    assert!(task.task_state == state);
    assert!(task.restored_from_queue);

    let task = resume(descriptor(), &queued(SettleInternalMatchTaskState::Pending)).unwrap();
    assert!(matches!(task.task_state, SettleInternalMatchTaskState::Pending));
    assert!(!task.restored_from_queue);
}

#[test]
fn a_committed_settlement_without_a_payload_is_refused() {
    let queued = QueuedTaskState::Running {
        state: "SubmittingTx".to_string(),
        committed: true,
        execution_state: None,
    };
    match resume(descriptor(), &queued) {
        Err(SettleInternalMatchTaskError::Settlement(text)) => assert_eq!(
            text,
            "queued settlement has no readable recovery payload; refusing to rerun"
        ),
        other => panic!("expected a refusal, got {other:?}"),
    }
}

#[test]
fn a_refused_settlement_has_both_accounts_refreshed() {
    let hooks = descriptor().failure_hooks();
    assert_eq!(hooks.len(), 1);
    match &hooks[0] {
        TaskHook::RefreshAccount { account_ids } => {
            assert_eq!(account_ids, &vec![ACCOUNT0, ACCOUNT1]);
        },
        other => panic!("expected a refresh, got {other:?}"),
    }
}

#[test]
fn a_recovery_starts_with_a_lookup() {
    let state = planned(PrivacyRing::Ring1, PrivacyRing::Ring2);
    let task = SettleInternalMatchTask::restore(descriptor(), Some(state)).unwrap();
    let submission = task.recover_submitted_match().unwrap();
    match submission.action(&task) {
        Action::FindCommitment { commitment } => assert_eq!(commitment, "new20"),
        other => panic!("expected a lookup, got {other:?}"),
    }

    for state in [
        planned(PrivacyRing::Ring0, PrivacyRing::Ring1),
        SettleInternalMatchTaskState::SubmittingTx,
    ] {
        let task = SettleInternalMatchTask::restore(descriptor(), Some(state)).unwrap();
        match task.recover_submitted_match() {
            Err(SettleInternalMatchTaskError::Settlement(text)) => assert_eq!(text, NOT_FINALIZED),
            other => panic!("expected a refusal, got {other:?}"),
        }
    }
}

#[test]
fn a_recovery_with_a_public_counterparty_is_refused() {
    let state = planned(PrivacyRing::Ring1, PrivacyRing::Ring0);
    let mut task = SettleInternalMatchTask::restore(descriptor(), Some(state)).unwrap();
    let mut world = World::new(PrivacyRing::Ring1, PrivacyRing::Ring0);
    world.chain.push("new20".to_string());
    assert!(world.submit(&mut task).is_err());
    assert_eq!(world.names(), ["FindCommitment"]);
}
