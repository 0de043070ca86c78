//! The on-chain leg of a settlement: submitting the match, or, for a task that
//! was restored from the queue, proving that it was submitted before.
use vstd::prelude::*;

use crate::account::{Balance, BalanceLocation, Order, PrivacyRing};
use crate::ids::AccountId;
use crate::settlement::capture::{is_local_state_of, Capture};
use crate::settlement::error::{
    not_finalized, refuse_not_finalized, SettleInternalMatchTaskError,
    SettleInternalMatchTaskErrorView,
};
use crate::settlement::party::{PartyId, PartyLocalState, PartyStateTransition};
use crate::settlement::service::{Action, BundleHandle, Reply};
use crate::settlement::state::SettleInternalMatchTaskState;
use crate::settlement::task::SettleInternalMatchTask;

verus! {

/// The local states of both parties before the settlement.
#[derive(Debug)]
pub struct BeforeStates {
    /// The local state of the initiating party
    pub party0: PartyLocalState,
    /// The local state of the counterparty
    pub party1: PartyLocalState,
}

/// The transitions of both parties.
#[derive(Debug)]
pub struct Transitions {
    /// The transition of the initiating party
    pub party0: PartyStateTransition,
    /// The transition of the counterparty
    pub party1: PartyStateTransition,
}

/// The commitment of a party that is looked up on chain next.
#[derive(Debug)]
pub enum Lookup {
    /// The commitment to the order's intent
    Order,
    /// The commitment to the input balance
    InputBalance,
    /// The commitment to the output balance
    OutputBalance { input_found: bool },
}

/// What is known of a party's on-chain leg.
#[derive(Debug)]
pub enum FirstLeg {
    /// A commitment is to be looked up
    Unknown { lookup: Lookup },
    /// Whether the leg is proven to have finalized is known
    Known { finalized: bool },
}

/// What a submission rests on: the local states before it, and the settlement bundles of
/// both parties.
#[derive(Debug)]
pub struct Groundwork {
    /// The local states of both parties
    pub before: BeforeStates,
    /// The settlement bundle of the initiating party
    pub bundle0: BundleHandle,
    /// The settlement bundle of the counterparty
    pub bundle1: BundleHandle,
}

/// How far the on-chain leg has come.
///
/// A match is submitted only after what is expected of it has been persisted. From then
/// on the leg can be recovered, and is not submitted again.
#[derive(Debug)]
pub enum Submission {
    /// The local state of a party is being read, the counterparty's once the
    /// initiating party's has been captured
    Capturing { captured: Option<PartyLocalState>, capture: Capture },
    /// The settlement bundle of a party is being built, the counterparty's once the
    /// initiating party's is there
    Bundling { before: BeforeStates, built: Option<BundleHandle> },
    /// The updated order of a party is being built, the counterparty's once the
    /// initiating party's is there
    Intending { ground: Groundwork, updated_order0: Option<Order> },
    /// The updated darkpool balances of a party are being built, the output balance
    /// once the input balance is there
    Balancing { ground: Groundwork, party: PartyId, input_balance: Option<Balance> },
    /// The balance that the obligation leaves in the EOA of a party is being built
    EoaBalancing { ground: Groundwork, party: PartyId },
    /// The transitions that the match is expected to bring are being persisted
    Planning { ground: Groundwork, transitions: Transitions },
    /// The match is being submitted
    Settling { bundle0: BundleHandle, bundle1: BundleHandle, transitions: Transitions },
    /// The Merkle proofs of both parties are being taken from the receipt
    StoringProofs { transitions: Transitions },
    /// A commitment of a party is being looked up on chain
    Proving { transitions: Transitions, party: PartyId, lookup: Lookup },
    /// Merkle proofs are being fetched from chain, of which some are done
    Syncing { transitions: Transitions, done: usize },
    /// The on-chain leg is done
    Ready { transitions: Transitions },
}

impl BeforeStates {
    /// The local state of a party.
    pub open spec fn of(self, party: PartyId) -> PartyLocalState {
        match party {
            PartyId::Party0 => self.party0,
            PartyId::Party1 => self.party1,
        }
    }

    /// The local state of a party.
    fn party(&self, party: PartyId) -> (res: &PartyLocalState)
        ensures
            *res == self.of(party),
    {
        match party {
            PartyId::Party0 => &self.party0,
            PartyId::Party1 => &self.party1,
        }
    }

    /// Whether these are local states of the parties of a task.
    pub open spec fn belongs_to(self, task: SettleInternalMatchTask) -> bool {
        is_local_state_of(self.party0, task, PartyId::Party0) && is_local_state_of(
            self.party1,
            task,
            PartyId::Party1,
        )
    }
}

/// The local state from which a transition starts.
pub open spec fn state_before(transition: PartyStateTransition) -> PartyLocalState {
    PartyLocalState {
        account_id: transition.account_id,
        order_id: transition.order_id,
        order: transition.order_before,
        input_balance: transition.input_balance_before,
        output_balance: transition.output_balance_before,
    }
}

/// Whether a transition leads a party of a task from a local state of the party to what
/// the task knows of it after the settlement.
pub open spec fn leads_to_update(
    transition: PartyStateTransition,
    task: SettleInternalMatchTask,
    party: PartyId,
) -> bool {
    &&& is_local_state_of(state_before(transition), task, party)
    &&& task.knows_update_of(party)
    &&& task.updated_order_of(party) == Some(transition.order_after)
    &&& task.updated_input_of(party) == transition.input_balance_after
    &&& task.updated_output_of(party) == transition.output_balance_after
}

/// Whether a transition starts from a local state.
pub open spec fn starts_from_state(
    transition: PartyStateTransition,
    before: PartyLocalState,
) -> bool {
    &&& transition.account_id == before.account_id
    &&& transition.order_id == before.order_id
    &&& transition.order_before == before.order
    &&& transition.input_balance_before == before.input_balance
    &&& transition.output_balance_before == before.output_balance
}

impl Transitions {
    /// The transition of a party.
    pub open spec fn of(self, party: PartyId) -> PartyStateTransition {
        match party {
            PartyId::Party0 => self.party0,
            PartyId::Party1 => self.party1,
        }
    }

    /// Whether the transitions lead the parties of a task to what the task knows
    /// of them after the settlement.
    pub open spec fn belongs_to(self, task: SettleInternalMatchTask) -> bool {
        leads_to_update(self.party0, task, PartyId::Party0) && leads_to_update(
            self.party1,
            task,
            PartyId::Party1,
        )
    }

    /// Whether these are the transitions that a task has persisted.
    pub open spec fn planned_by(self, task: SettleInternalMatchTask) -> bool {
        task.task_state == SettleInternalMatchTaskState::SubmittingTxPlanned {
            party0: self.party0,
            party1: self.party1,
        }
    }

    /// Whether the transitions start from given local states.
    pub open spec fn starts_from(self, before: BeforeStates) -> bool {
        starts_from_state(self.party0, before.party0) && starts_from_state(
            self.party1,
            before.party1,
        )
    }

    /// The transition of a party.
    fn party(&self, party: PartyId) -> (res: &PartyStateTransition)
        ensures
            *res == self.of(party),
    {
        match party {
            PartyId::Party0 => &self.party0,
            PartyId::Party1 => &self.party1,
        }
    }
}

/// Whether a transition has the balances that its ring commits to on chain.
pub open spec fn has_committed_balances(transition: PartyStateTransition) -> bool {
    transition.order_after.ring == PrivacyRing::Ring2 ==> transition.input_balance_after is Some
        && transition.output_balance_after is Some
}

/// What is known of a party's on-chain leg before anything was looked up. Nothing
/// on chain proves the leg of a fully public order.
pub open spec fn first_leg_start(transition: PartyStateTransition) -> FirstLeg {
    if transition.order_after.ring == PrivacyRing::Ring0 {
        FirstLeg::Known { finalized: false }
    } else {
        FirstLeg::Unknown { lookup: Lookup::Order }
    }
}

/// What is known of a party's on-chain leg after a lookup.
pub open spec fn first_leg_after(
    transition: PartyStateTransition,
    lookup: Lookup,
    found: bool,
) -> FirstLeg {
    match lookup {
        Lookup::Order => if found && transition.order_after.ring == PrivacyRing::Ring2 {
            FirstLeg::Unknown { lookup: Lookup::InputBalance }
        } else {
            FirstLeg::Known { finalized: found }
        },
        Lookup::InputBalance => FirstLeg::Unknown {
            lookup: Lookup::OutputBalance { input_found: found },
        },
        Lookup::OutputBalance { input_found } => FirstLeg::Known {
            finalized: input_found && found,
        },
    }
}

/// The call that looks a commitment up.
pub open spec fn lookup_action(transition: PartyStateTransition, lookup: Lookup) -> Action {
    Action::FindCommitment {
        commitment: match lookup {
            Lookup::Order => transition.order_after.commitment,
            Lookup::InputBalance => transition.input_balance_after->0.commitment,
            Lookup::OutputBalance { .. } => transition.output_balance_after->0.commitment,
        },
    }
}

/// Whether a lookup is one that the ring of a transition asks for.
pub open spec fn lookup_applies(transition: PartyStateTransition, lookup: Lookup) -> bool {
    if lookup is Order {
        transition.order_after.ring != PrivacyRing::Ring0
    } else {
        transition.order_after.ring == PrivacyRing::Ring2
    }
}

/// What is known of a party's on-chain leg before anything was looked up.
pub(crate) fn start_first_leg(transition: &PartyStateTransition) -> (res: FirstLeg)
    ensures
        res == first_leg_start(*transition),
{
    match transition.order_after.ring {
        PrivacyRing::Ring0 => FirstLeg::Known { finalized: false },
        PrivacyRing::Ring1 | PrivacyRing::Ring2 | PrivacyRing::Ring3 => FirstLeg::Unknown {
            lookup: Lookup::Order,
        },
    }
}

/// Prove that the first, on-chain leg of the settlement finalized for a party:
/// takes in whether the commitment that was looked up is on chain.
pub fn first_leg_finalized(transition: &PartyStateTransition, lookup: Lookup, found: bool) -> (res:
    FirstLeg)
    ensures
        res == first_leg_after(*transition, lookup, found),
{
    match lookup {
        Lookup::Order => {
            if !found {
                return FirstLeg::Known { finalized: false };
            }
            if transition.order_after.ring != PrivacyRing::Ring2 {
                return FirstLeg::Known { finalized: true };
            }
            FirstLeg::Unknown { lookup: Lookup::InputBalance }
        },
        Lookup::InputBalance => FirstLeg::Unknown {
            lookup: Lookup::OutputBalance { input_found: found },
        },
        Lookup::OutputBalance { input_found } => FirstLeg::Known {
            finalized: input_found && found,
        },
    }
}

/// The call that looks a commitment up.
fn look_up(transition: &PartyStateTransition, lookup: &Lookup) -> (res: Action)
    requires
        has_committed_balances(*transition),
        lookup_applies(*transition, *lookup),
    ensures
        res == lookup_action(*transition, *lookup),
{
    let commitment = match lookup {
        Lookup::Order => &transition.order_after.commitment,
        Lookup::InputBalance => &transition.input_balance_after.as_ref().unwrap().commitment,
        Lookup::OutputBalance { .. } => {
            &transition.output_balance_after.as_ref().unwrap().commitment
        },
    };
    Action::FindCommitment { commitment: commitment.clone() }
}

/// The calls that fetch the Merkle proofs of a party from chain.
pub open spec fn sync_plan(transition: PartyStateTransition) -> Seq<Action> {
    let order = transition.order_after;
    let intent = if order.ring != PrivacyRing::Ring0 {
        seq![Action::SyncIntentProof { order_id: order.id, commitment: order.commitment }]
    } else {
        seq![]
    };
    let balances = if order.ring == PrivacyRing::Ring2 {
        seq![
            balance_sync(transition.account_id, transition.input_balance_after->0),
            balance_sync(transition.account_id, transition.output_balance_after->0),
        ]
    } else {
        seq![]
    };
    intent + balances
}

/// The call that fetches the Merkle proof of a balance from chain.
pub open spec fn balance_sync(account_id: AccountId, balance: Balance) -> Action {
    Action::SyncBalanceProof { account_id, mint: balance.mint, commitment: balance.commitment }
}

/// Rebuild local Merkle proofs from chain for a recovered task whose first leg
/// finalized: the calls to make, in order.
pub fn sync_recovery_merkle_proofs(transition: &PartyStateTransition) -> (res: Vec<Action>)
    requires
        has_committed_balances(*transition),
    ensures
        res@ == sync_plan(*transition),
{
    let mut plan: Vec<Action> = Vec::new();
    let order = &transition.order_after;
    if order.ring != PrivacyRing::Ring0 {
        plan.push(
            Action::SyncIntentProof { order_id: order.id, commitment: order.commitment.clone() },
        );
    }
    if order.ring == PrivacyRing::Ring2 {
        plan.push(
            sync_balance_merkle_proof(
                transition.account_id,
                transition.input_balance_after.as_ref().unwrap(),
            ),
        );
        plan.push(
            sync_balance_merkle_proof(
                transition.account_id,
                transition.output_balance_after.as_ref().unwrap(),
            ),
        );
    }
    plan
}

/// Rebuild a single balance Merkle proof from chain.
fn sync_balance_merkle_proof(account_id: AccountId, balance: &Balance) -> (res: Action)
    ensures
        res == balance_sync(account_id, *balance),
{
    Action::SyncBalanceProof {
        account_id,
        mint: balance.mint.clone(),
        commitment: balance.commitment.clone(),
    }
}

/// The calls that fetch the Merkle proofs of both parties from chain.
pub open spec fn full_sync_plan(transitions: Transitions) -> Seq<Action> {
    sync_plan(transitions.party0) + sync_plan(transitions.party1)
}

/// The transitions of both parties of a task, once what they lead to is known.
pub open spec fn transitions_of(task: SettleInternalMatchTask, before: BeforeStates) -> Result<
    Transitions,
    SettleInternalMatchTaskErrorView,
> {
    match (
        task.transition_of(PartyId::Party0, before.party0),
        task.transition_of(PartyId::Party1, before.party1),
    ) {
        (Ok(party0), Ok(party1)) => Ok(Transitions { party0, party1 }),
        (Err(error), _) => Err(error),
        (_, Err(error)) => Err(error),
    }
}

/// The transitions of both parties of a task.
fn build_state_transitions(task: &SettleInternalMatchTask, before: BeforeStates) -> (res: Result<
    Transitions,
    SettleInternalMatchTaskError,
>)
    ensures
        match (res, transitions_of(*task, before)) {
            (Ok(transitions), Ok(expected)) => transitions == expected,
            (Err(error), Err(expected)) => error@ == expected,
            _ => false,
        },
{
    match task.build_state_transition(PartyId::Party0, before.party0) {
        Ok(party0) => match task.build_state_transition(PartyId::Party1, before.party1) {
            Ok(party1) => Ok(Transitions { party0, party1 }),
            Err(error) => Err(error),
        },
        Err(error) => Err(error),
    }
}

impl Submission {
    /// Whether this is a point that the on-chain leg of a task can come to.
    pub open spec fn well_formed(self, task: SettleInternalMatchTask) -> bool {
        match self {
            Submission::Capturing { captured, capture } => {
                &&& task.can_submit()
                &&& capture.well_formed()
                &&& match captured {
                    Some(party0) => is_local_state_of(party0, task, PartyId::Party0),
                    None => true,
                }
            },
            Submission::Bundling { before, .. } => task.can_submit() && before.belongs_to(task),
            Submission::Intending { ground, .. } => {
                task.can_submit() && ground.before.belongs_to(task)
            },
            Submission::Balancing { ground, party, .. } => {
                &&& task.can_submit()
                &&& ground.before.belongs_to(task)
                &&& task.updated_order0 is Some
                &&& task.updated_order1 is Some
                &&& task.updated_order_of(party)->0.ring == PrivacyRing::Ring2
                &&& party == PartyId::Party1 ==> task.knows_update_of(PartyId::Party0)
            },
            Submission::EoaBalancing { ground, party } => {
                &&& task.can_submit()
                &&& ground.before.belongs_to(task)
                &&& task.updated_order0 is Some
                &&& task.updated_order1 is Some
                &&& holds_eoa_balance(task.updated_order_of(party)->0, ground.before.of(party))
                &&& party == PartyId::Party1 ==> task.knows_update_of(PartyId::Party0)
            },
            Submission::Planning { ground, transitions } => {
                &&& task.can_submit()
                &&& ground.before.belongs_to(task)
                &&& transitions.belongs_to(task)
                &&& transitions.starts_from(ground.before)
            },
            Submission::Settling { transitions, .. } | Submission::StoringProofs { transitions } => {
                &&& transitions.planned_by(task)
                &&& !task.restored_from_queue
                &&& transitions.belongs_to(task)
            },
            Submission::Proving { transitions, party, lookup } => {
                &&& transitions.planned_by(task)
                &&& has_committed_balances(transitions.party0)
                &&& has_committed_balances(transitions.party1)
                &&& lookup_applies(transitions.of(party), lookup)
                &&& party == PartyId::Party1 ==> transitions.party0.order_after.ring
                    != PrivacyRing::Ring0
            },
            Submission::Syncing { transitions, done } => {
                &&& transitions.planned_by(task)
                &&& has_committed_balances(transitions.party0)
                &&& has_committed_balances(transitions.party1)
                &&& transitions.party0.order_after.ring != PrivacyRing::Ring0
                &&& transitions.party1.order_after.ring != PrivacyRing::Ring0
                &&& done < full_sync_plan(transitions).len()
            },
            Submission::Ready { transitions } => transitions.planned_by(task),
        }
    }

    /// The call to make next, of no meaning once the on-chain leg is done.
    pub open spec fn next_action(self, task: SettleInternalMatchTask) -> Action {
        match self {
            Submission::Capturing { captured, capture } => capture.next_action(
                task,
                if captured is Some {
                    PartyId::Party1
                } else {
                    PartyId::Party0
                },
            ),
            Submission::Bundling { built, .. } => {
                let party = if built is Some {
                    PartyId::Party1
                } else {
                    PartyId::Party0
                };
                Action::BuildBundle {
                    order_id: task.order_of(party),
                    obligation: task.obligation_of(party),
                }
            },
            Submission::Intending { updated_order0, .. } => {
                let party = if updated_order0 is Some {
                    PartyId::Party1
                } else {
                    PartyId::Party0
                };
                Action::BuildUpdatedIntent {
                    order_id: task.order_of(party),
                    obligation: task.obligation_of(party),
                }
            },
            Submission::Balancing { party, input_balance, .. } => if input_balance is None {
                Action::BuildInputBalance {
                    account_id: task.account_of(party),
                    obligation: task.obligation_of(party),
                }
            } else {
                Action::BuildOutputBalance {
                    account_id: task.account_of(party),
                    order: task.updated_order_of(party)->0,
                    obligation: task.obligation_of(party),
                    apply_fees: false,
                }
            },
            Submission::EoaBalancing { ground, party } => Action::BuildEoaBalance {
                account_id: task.account_of(party),
                order: task.updated_order_of(party)->0,
                obligation: task.obligation_of(party),
                balance: ground.before.of(party).input_balance->0,
            },
            Submission::Planning { transitions, .. } => Action::PersistState {
                state: SettleInternalMatchTaskState::SubmittingTxPlanned {
                    party0: transitions.party0,
                    party1: transitions.party1,
                },
            },
            Submission::Settling { bundle0, bundle1, .. } => Action::SettleMatch {
                match_result: task.match_result,
                bundle0,
                bundle1,
            },
            Submission::StoringProofs { .. } | Submission::Ready { .. } => {
                Action::StoreReceiptProofs {
                    party0: task.receipt_proofs_of(PartyId::Party0),
                    party1: task.receipt_proofs_of(PartyId::Party1),
                }
            },
            Submission::Proving { transitions, party, lookup } => lookup_action(
                transitions.of(party),
                lookup,
            ),
            Submission::Syncing { transitions, done } => full_sync_plan(transitions)[done as int],
        }
    }

    /// Where the on-chain leg of a task begins, or the error with which it is refused.
    ///
    /// A task with a plan may have submitted the match, and recovers it. A task without
    /// one has not submitted it; it does so now, unless it was restored, in which case
    /// there is nothing by which the chain could prove the leg.
    pub open spec fn begin(task: SettleInternalMatchTask) -> Result<
        Submission,
        SettleInternalMatchTaskErrorView,
    > {
        match task.task_state {
            SettleInternalMatchTaskState::SubmittingTxPlanned { party0, party1 } => {
                if has_committed_balances(party0) && has_committed_balances(party1) {
                    Self::once_first_leg(
                        Transitions { party0, party1 },
                        PartyId::Party0,
                        first_leg_start(party0),
                    )
                } else {
                    Err(not_finalized())
                }
            },
            _ => if task.restored_from_queue {
                Err(not_finalized())
            } else {
                Ok(Submission::Capturing { captured: None, capture: Capture::Order })
            },
        }
    }

    /// Where the updated balances of a party are built, if there are any to build: both
    /// for an order of the second ring, and the input balance where it is an EOA balance
    /// that the local state holds.
    pub open spec fn balancing(
        task: SettleInternalMatchTask,
        ground: Groundwork,
        party: PartyId,
    ) -> Option<Submission> {
        let order = task.updated_order_of(party)->0;
        if order.ring == PrivacyRing::Ring2 {
            Some(Submission::Balancing { ground, party, input_balance: None })
        } else if holds_eoa_balance(order, ground.before.of(party)) {
            Some(Submission::EoaBalancing { ground, party })
        } else {
            None
        }
    }

    /// Where the on-chain leg goes on once the updated orders are known.
    pub open spec fn once_intended(task: SettleInternalMatchTask, ground: Groundwork) -> Result<
        Submission,
        SettleInternalMatchTaskErrorView,
    > {
        match Self::balancing(task, ground, PartyId::Party0) {
            Some(submission) => Ok(submission),
            None => Self::once_balanced(task, ground, PartyId::Party0),
        }
    }

    /// Where the on-chain leg goes on once the updated balances of a party are known.
    pub open spec fn once_balanced(
        task: SettleInternalMatchTask,
        ground: Groundwork,
        party: PartyId,
    ) -> Result<Submission, SettleInternalMatchTaskErrorView> {
        match (party, Self::balancing(task, ground, PartyId::Party1)) {
            (PartyId::Party0, Some(submission)) => Ok(submission),
            _ => match transitions_of(task, ground.before) {
                Ok(transitions) => Ok(Submission::Planning { ground, transitions }),
                Err(error) => Err(error),
            },
        }
    }

    /// Where the on-chain leg goes on with what is known of a party's leg.
    pub open spec fn once_first_leg(
        transitions: Transitions,
        party: PartyId,
        first_leg: FirstLeg,
    ) -> Result<Submission, SettleInternalMatchTaskErrorView> {
        match first_leg {
            FirstLeg::Unknown { lookup } => Ok(Submission::Proving { transitions, party, lookup }),
            FirstLeg::Known { finalized: false } => Err(not_finalized()),
            FirstLeg::Known { finalized: true } => match party {
                PartyId::Party0 => match first_leg_start(transitions.party1) {
                    FirstLeg::Unknown { lookup } => Ok(
                        Submission::Proving { transitions, party: PartyId::Party1, lookup },
                    ),
                    FirstLeg::Known { .. } => Err(not_finalized()),
                },
                PartyId::Party1 => Ok(Submission::Syncing { transitions, done: 0 }),
            },
        }
    }

    /// The task and the point that the on-chain leg comes to when the next call is
    /// answered, or the error with which it ends.
    pub open spec fn after_reply(
        self,
        task: SettleInternalMatchTask,
        reply: Result<Reply, SettleInternalMatchTaskError>,
    ) -> (SettleInternalMatchTask, Result<Submission, SettleInternalMatchTaskErrorView>) {
        match (self, reply) {
            (Submission::Proving { transitions, party, lookup }, _) => {
                (
                    task,
                    Self::once_first_leg(
                        transitions,
                        party,
                        first_leg_after(transitions.of(party), lookup, reply is Ok),
                    ),
                )
            },
            (_, Err(error)) => (task, Err(error@)),
            (Submission::Capturing { captured: None, capture }, Ok(reply)) => {
                (
                    task,
                    Ok(
                        match capture.after_reply(task, PartyId::Party0, reply) {
                            Capture::Captured { state } => Submission::Capturing {
                                captured: Some(state),
                                capture: Capture::Order,
                            },
                            capture => Submission::Capturing { captured: None, capture },
                        },
                    ),
                )
            },
            (Submission::Capturing { captured: Some(party0), capture }, Ok(reply)) => {
                (
                    task,
                    Ok(
                        match capture.after_reply(task, PartyId::Party1, reply) {
                            Capture::Captured { state } => Submission::Bundling {
                                before: BeforeStates { party0, party1: state },
                                built: None,
                            },
                            capture => Submission::Capturing { captured: Some(party0), capture },
                        },
                    ),
                )
            },
            (Submission::Bundling { before, built: None }, Ok(Reply::Bundle(bundle0))) => {
                (task, Ok(Submission::Bundling { before, built: Some(bundle0) }))
            },
            (Submission::Bundling { before, built: Some(bundle0) }, Ok(Reply::Bundle(bundle1))) => {
                (
                    task,
                    Ok(
                        Submission::Intending {
                            ground: Groundwork { before, bundle0, bundle1 },
                            updated_order0: None,
                        },
                    ),
                )
            },
            (Submission::Intending { ground, updated_order0: None }, Ok(Reply::Order(order))) => {
                (task, Ok(Submission::Intending { ground, updated_order0: Some(order) }))
            },
            (
                Submission::Intending { ground, updated_order0: Some(order0) },
                Ok(Reply::Order(order1)),
            ) => {
                let task = SettleInternalMatchTask {
                    updated_order0: Some(order0),
                    updated_order1: Some(order1),
                    ..task
                };
                (task, Self::once_intended(task, ground))
            },
            (
                Submission::Balancing { ground, party, input_balance: None },
                Ok(Reply::BuiltBalance(balance)),
            ) => {
                (task, Ok(Submission::Balancing { ground, party, input_balance: Some(balance) }))
            },
            (
                Submission::Balancing { ground, party, input_balance: Some(input_balance) },
                Ok(Reply::BuiltBalance(output_balance)),
            ) => {
                let task = task.with_balances(party, input_balance, output_balance);
                (task, Self::once_balanced(task, ground, party))
            },
            (Submission::EoaBalancing { ground, party }, Ok(Reply::BuiltBalance(balance))) => {
                let task = task.with_input_balance(party, balance);
                (task, Self::once_balanced(task, ground, party))
            },
            (Submission::Planning { ground, transitions }, Ok(_)) => {
                (
                    SettleInternalMatchTask {
                        task_state: SettleInternalMatchTaskState::SubmittingTxPlanned {
                            party0: transitions.party0,
                            party1: transitions.party1,
                        },
                        ..task
                    },
                    Ok(
                        Submission::Settling {
                            bundle0: ground.bundle0,
                            bundle1: ground.bundle1,
                            transitions,
                        },
                    ),
                )
            },
            (Submission::Settling { transitions, .. }, Ok(_)) => {
                (task, Ok(Submission::StoringProofs { transitions }))
            },
            (Submission::StoringProofs { transitions }, Ok(_)) => {
                (task, Ok(Submission::Ready { transitions }))
            },
            (Submission::Syncing { transitions, done }, Ok(_)) => {
                (
                    task,
                    Ok(
                        if done + 1 < full_sync_plan(transitions).len() {
                            Submission::Syncing { transitions, done: (done + 1) as usize }
                        } else {
                            Submission::Ready { transitions }
                        },
                    ),
                )
            },
            _ => (task, Ok(self)),
        }
    }

    /// Once the updated balances are known, the transitions belong to the task and start
    /// from what was captured.
    proof fn lemma_once_balanced(task: SettleInternalMatchTask, before: BeforeStates)
        requires
            before.belongs_to(task),
            task.knows_update_of(PartyId::Party0),
            task.knows_update_of(PartyId::Party1),
        ensures
            transitions_of(task, before) matches Ok(transitions) && transitions.belongs_to(task)
                && transitions.starts_from(before),
    {
    }

    /// The on-chain leg begins at a point that it can come to.
    pub proof fn lemma_begin_is_well_formed(task: SettleInternalMatchTask)
        requires
            task.task_state is SubmittingTx || task.task_state is SubmittingTxPlanned,
        ensures
            Self::begin(task) matches Ok(submission) ==> submission.well_formed(task),
    {
    }

    /// Every reply takes the on-chain leg to a point that it can come to.
    pub proof fn lemma_step_keeps_well_formed(
        self,
        task: SettleInternalMatchTask,
        reply: Result<Reply, SettleInternalMatchTaskError>,
    )
        requires
            self.well_formed(task),
            !(self is Ready),
            reply is Ok ==> self.next_action(task).answered_by(reply->Ok_0),
        ensures
            self.after_reply(task, reply).1 matches Ok(next) ==> next.well_formed(
                self.after_reply(task, reply).0,
            ),
    {
        let (next_task, _) = self.after_reply(task, reply);
        match self {
            Submission::Intending { ground, .. }
            | Submission::Balancing { ground, .. }
            | Submission::EoaBalancing { ground, .. } => {
                if next_task.knows_update_of(PartyId::Party0) && next_task.knows_update_of(
                    PartyId::Party1,
                ) {
                    Self::lemma_once_balanced(next_task, ground.before);
                }
            },
            _ => {},
        }
    }

    /// Begins the on-chain leg of a task.
    pub fn start(task: &SettleInternalMatchTask) -> (res: Result<
        Submission,
        SettleInternalMatchTaskError,
    >)
        requires
            task.task_state is SubmittingTx || task.task_state is SubmittingTxPlanned,
        ensures
            same_outcome(res, Self::begin(*task)),
            res matches Ok(submission) ==> submission.well_formed(*task),
    {
        match &task.task_state {
            SettleInternalMatchTaskState::SubmittingTxPlanned { .. } => {
                task.recover_submitted_match()
            },
            _ => {
                if task.restored_from_queue {
                    return task.recover_submitted_match();
                }
                Ok(Submission::Capturing { captured: None, capture: Capture::Order })
            },
        }
    }

    /// The call to make next.
    pub fn action(&self, task: &SettleInternalMatchTask) -> (res: Action)
        requires
            self.well_formed(*task),
            !(self is Ready),
        ensures
            res == self.next_action(*task),
    {
        match self {
            Submission::Capturing { captured, capture } => match captured {
                Some(_) => capture.action(task, PartyId::Party1),
                None => capture.action(task, PartyId::Party0),
            },
            Submission::Bundling { built, .. } => {
                let party = match built {
                    Some(_) => PartyId::Party1,
                    None => PartyId::Party0,
                };
                Action::BuildBundle {
                    order_id: task.party_order(party),
                    obligation: task.get_obligation(party).clone(),
                }
            },
            Submission::Intending { updated_order0, .. } => {
                let party = match updated_order0 {
                    Some(_) => PartyId::Party1,
                    None => PartyId::Party0,
                };
                Action::BuildUpdatedIntent {
                    order_id: task.party_order(party),
                    obligation: task.get_obligation(party).clone(),
                }
            },
            Submission::Balancing { party, input_balance, .. } => match input_balance {
                None => Action::BuildInputBalance {
                    account_id: task.party_account(*party),
                    obligation: task.get_obligation(*party).clone(),
                },
                // No fees apply here as the settlement was public, and fees are
                // transferred externally by the contract to their recipients
                Some(_) => Action::BuildOutputBalance {
                    account_id: task.party_account(*party),
                    order: task.updated_order(*party).as_ref().unwrap().clone(),
                    obligation: task.get_obligation(*party).clone(),
                    apply_fees: false,
                },
            },
            Submission::EoaBalancing { ground, party } => Action::BuildEoaBalance {
                account_id: task.party_account(*party),
                order: task.updated_order(*party).as_ref().unwrap().clone(),
                obligation: task.get_obligation(*party).clone(),
                balance: ground.before.party(*party).input_balance.as_ref().unwrap().clone(),
            },
            Submission::Planning { transitions, .. } => Action::PersistState {
                state: SettleInternalMatchTaskState::SubmittingTxPlanned {
                    party0: transitions.party0.clone(),
                    party1: transitions.party1.clone(),
                },
            },
            Submission::Settling { bundle0, bundle1, .. } => Action::SettleMatch {
                match_result: task.match_result.clone(),
                bundle0: *bundle0,
                bundle1: *bundle1,
            },
            Submission::StoringProofs { .. } | Submission::Ready { .. } => {
                update_merkle_proofs(task)
            },
            Submission::Proving { transitions, party, lookup } => look_up(
                transitions.party(*party),
                lookup,
            ),
            Submission::Syncing { transitions, done } => {
                let mut plan = sync_recovery_merkle_proofs(transitions.party(PartyId::Party0));
                let mut rest = sync_recovery_merkle_proofs(transitions.party(PartyId::Party1));
                plan.append(&mut rest);
                plan.swap_remove(*done)
            },
        }
    }

    /// Build updated input and output balances for a Ring 2 party
    ///
    /// The balance of a Ring 0/1 party is EOA-based and only requires a simple amount
    /// decrement, which is asked for where the balance is locally managed.
    fn build_updated_balances_for_party(
        task: &SettleInternalMatchTask,
        ground: Groundwork,
        party: PartyId,
    ) -> (res: Result<Submission, SettleInternalMatchTaskError>)
        requires
            task.updated_order0 is Some,
            task.updated_order1 is Some,
        ensures
            same_outcome(
                res,
                match party {
                    PartyId::Party0 => Self::once_intended(*task, ground),
                    PartyId::Party1 => Self::once_balanced(*task, ground, PartyId::Party0),
                },
            ),
        decreases (if party == PartyId::Party0 { 1int } else { 0int }),
    {
        let order = task.updated_order(party).as_ref().unwrap();
        if order.ring == PrivacyRing::Ring2 {
            return Ok(Submission::Balancing { ground, party, input_balance: None });
        }
        let locally_managed = match ground.before.party(party).input_balance {
            Some(_) => true,
            None => false,
        };
        if order.ring.balance_location() == BalanceLocation::EOA && locally_managed {
            return Ok(Submission::EoaBalancing { ground, party });
        }
        match party {
            PartyId::Party0 => Self::build_updated_balances_for_party(
                task,
                ground,
                PartyId::Party1,
            ),
            PartyId::Party1 => Self::with_balances(task, ground),
        }
    }

    /// Where the on-chain leg goes on once the updated balances of both parties are
    /// known.
    fn with_balances(task: &SettleInternalMatchTask, ground: Groundwork) -> (res: Result<
        Submission,
        SettleInternalMatchTaskError,
    >)
        ensures
            same_outcome(res, Self::once_balanced(*task, ground, PartyId::Party1)),
    {
        let before = BeforeStates {
            party0: ground.before.party0.clone(),
            party1: ground.before.party1.clone(),
        };
        match build_state_transitions(task, before) {
            Ok(transitions) => Ok(Submission::Planning { ground, transitions }),
            Err(error) => Err(error),
        }
    }

    /// Where the on-chain leg goes on once the updated balances of a party are known.
    fn with_party_balances(
        task: &SettleInternalMatchTask,
        ground: Groundwork,
        party: PartyId,
    ) -> (res: Result<Submission, SettleInternalMatchTaskError>)
        requires
            task.updated_order0 is Some,
            task.updated_order1 is Some,
        ensures
            same_outcome(res, Self::once_balanced(*task, ground, party)),
    {
        match party {
            PartyId::Party0 => Self::build_updated_balances_for_party(
                task,
                ground,
                PartyId::Party1,
            ),
            PartyId::Party1 => Self::with_balances(task, ground),
        }
    }

    /// Where the on-chain leg goes on with what is known of a party's leg.
    pub(crate) fn with_first_leg(transitions: Transitions, party: PartyId, first_leg: FirstLeg) -> (res:
        Result<Submission, SettleInternalMatchTaskError>)
        ensures
            same_outcome(res, Self::once_first_leg(transitions, party, first_leg)),
    {
        match first_leg {
            FirstLeg::Unknown { lookup } => Ok(Submission::Proving { transitions, party, lookup }),
            FirstLeg::Known { finalized } => {
                if !finalized {
                    return Err(refuse_not_finalized());
                }
                match party {
                    PartyId::Party0 => match start_first_leg(&transitions.party1) {
                        FirstLeg::Unknown { lookup } => Ok(
                            Submission::Proving { transitions, party: PartyId::Party1, lookup },
                        ),
                        FirstLeg::Known { .. } => Err(refuse_not_finalized()),
                    },
                    PartyId::Party1 => Ok(Submission::Syncing { transitions, done: 0 }),
                }
            },
        }
    }

    /// Takes in the reply to the last call. A failed lookup means that the
    /// commitment is not known to be on chain; any other failure ends the leg.
    pub fn advance(
        self,
        task: &mut SettleInternalMatchTask,
        reply: Result<Reply, SettleInternalMatchTaskError>,
    ) -> (res: Result<Submission, SettleInternalMatchTaskError>)
        requires
            self.well_formed(*old(task)),
            !(self is Ready),
            reply is Ok ==> self.next_action(*old(task)).answered_by(reply->Ok_0),
        ensures
            *final(task) == self.after_reply(*old(task), reply).0,
            same_outcome(res, self.after_reply(*old(task), reply).1),
            res is Ok ==> res->Ok_0.well_formed(*final(task)),
    {
        proof {
            self.lemma_step_keeps_well_formed(*old(task), reply);
        }
        let reply = match (&self, reply) {
            (Submission::Proving { .. }, reply) => reply,
            (_, Err(error)) => {
                return Err(error);
            },
            (_, reply) => reply,
        };
        match (self, reply) {
            (Submission::Proving { transitions, party, lookup }, reply) => {
                let first_leg = first_leg_finalized(
                    transitions.party(party),
                    lookup,
                    reply.is_ok(),
                );
                Self::with_first_leg(transitions, party, first_leg)
            },
            (Submission::Capturing { captured: None, capture }, Ok(reply)) => {
                match capture.capture_party_state(task, PartyId::Party0, reply) {
                    Capture::Captured { state } => Ok(
                        Submission::Capturing { captured: Some(state), capture: Capture::Order },
                    ),
                    capture => Ok(Submission::Capturing { captured: None, capture }),
                }
            },
            (Submission::Capturing { captured: Some(party0), capture }, Ok(reply)) => {
                match capture.capture_party_state(task, PartyId::Party1, reply) {
                    Capture::Captured { state } => Ok(
                        Submission::Bundling {
                            before: BeforeStates { party0, party1: state },
                            built: None,
                        },
                    ),
                    capture => Ok(Submission::Capturing { captured: Some(party0), capture }),
                }
            },
            (Submission::Bundling { before, built: None }, Ok(Reply::Bundle(bundle))) => {
                Ok(Submission::Bundling { before, built: Some(bundle) })
            },
            (Submission::Bundling { before, built: Some(bundle0) }, Ok(Reply::Bundle(bundle1))) => {
                Ok(
                    Submission::Intending {
                        ground: Groundwork { before, bundle0, bundle1 },
                        updated_order0: None,
                    },
                )
            },
            (Submission::Intending { ground, updated_order0: None }, Ok(Reply::Order(order))) => {
                Ok(Submission::Intending { ground, updated_order0: Some(order) })
            },
            (
                Submission::Intending { ground, updated_order0: Some(order0) },
                Ok(Reply::Order(order1)),
            ) => {
                task.updated_order0 = Some(order0);
                task.updated_order1 = Some(order1);
                Self::build_updated_balances_for_party(task, ground, PartyId::Party0)
            },
            (
                Submission::Balancing { ground, party, input_balance: None },
                Ok(Reply::BuiltBalance(balance)),
            ) => { Ok(Submission::Balancing { ground, party, input_balance: Some(balance) }) },
            (
                Submission::Balancing { ground, party, input_balance: Some(input_balance) },
                Ok(Reply::BuiltBalance(output_balance)),
            ) => {
                task.set_balances(party, input_balance, output_balance);
                Self::with_party_balances(task, ground, party)
            },
            (Submission::EoaBalancing { ground, party }, Ok(Reply::BuiltBalance(balance))) => {
                task.set_input_balance(party, balance);
                Self::with_party_balances(task, ground, party)
            },
            (Submission::Planning { ground, transitions }, Ok(_)) => {
                task.task_state = SettleInternalMatchTaskState::SubmittingTxPlanned {
                    party0: transitions.party0.clone(),
                    party1: transitions.party1.clone(),
                };
                Ok(
                    Submission::Settling {
                        bundle0: ground.bundle0,
                        bundle1: ground.bundle1,
                        transitions,
                    },
                )
            },
            (Submission::Settling { transitions, .. }, Ok(_)) => {
                Ok(Submission::StoringProofs { transitions })
            },
            (Submission::StoringProofs { transitions }, Ok(_)) => {
                Ok(Submission::Ready { transitions })
            },
            (Submission::Syncing { transitions, done }, Ok(_)) => {
                let count0: usize = sync_recovery_merkle_proofs(
                    transitions.party(PartyId::Party0),
                ).len();
                let count1: usize = sync_recovery_merkle_proofs(
                    transitions.party(PartyId::Party1),
                ).len();
                if done + 1 < count0 + count1 {
                    Ok(Submission::Syncing { transitions, done: done + 1 })
                } else {
                    Ok(Submission::Ready { transitions })
                }
            },
            (submission, _) => Ok(submission),
        }
    }
}

impl SettleInternalMatchTask {
    /// Whether the task may submit the match: it is about to, has not yet, and was not
    /// restored.
    pub open spec fn can_submit(self) -> bool {
        self.task_state is SubmittingTx && !self.restored_from_queue
    }
}

/// Whether a party has an EOA balance that its local state holds.
pub open spec fn holds_eoa_balance(order: Order, before: PartyLocalState) -> bool {
    order.ring.spec_balance_location() == BalanceLocation::EOA && before.input_balance is Some
}

/// Whether a transition has the balances that its ring commits to on chain.
pub(crate) fn knows_committed_balances(transition: &PartyStateTransition) -> (res: bool)
    ensures
        res == has_committed_balances(*transition),
{
    transition.order_after.ring != PrivacyRing::Ring2 || (transition.input_balance_after.is_some()
        && transition.output_balance_after.is_some())
}

/// Whether the outcome of a step is the expected one, errors being compared by
/// their model.
pub open spec fn same_outcome(
    outcome: Result<Submission, SettleInternalMatchTaskError>,
    expected: Result<Submission, SettleInternalMatchTaskErrorView>,
) -> bool {
    match (outcome, expected) {
        (Ok(submission), Ok(expected)) => submission == expected,
        (Err(error), Err(expected)) => error@ == expected,
        _ => false,
    }
}

/// Extract and store Merkle proofs for both parties from the settlement receipt
fn update_merkle_proofs(task: &SettleInternalMatchTask) -> (res: Action)
    requires
        task.knows_update_of(PartyId::Party0),
        task.knows_update_of(PartyId::Party1),
    ensures
        res == (Action::StoreReceiptProofs {
            party0: task.receipt_proofs_of(PartyId::Party0),
            party1: task.receipt_proofs_of(PartyId::Party1),
        }),
{
    Action::StoreReceiptProofs {
        party0: task.update_merkle_proof_for_party(PartyId::Party0),
        party1: task.update_merkle_proof_for_party(PartyId::Party1),
    }
}

} // verus!
