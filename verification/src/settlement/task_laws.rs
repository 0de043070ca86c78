//! What holds of the settlement task, of its parties and of its steps.
use vstd::prelude::*;

use crate::account::{Balance, BalanceLocation, Order, PrivacyRing};
use crate::ids::uuid_text;
use crate::settlement::capture::{is_local_state_of, Capture};
use crate::settlement::error::{
    missing_recovery_payload, missing_updated_order, not_finalized, unexpected_local_state,
    SettleInternalMatchTaskError, SettleInternalMatchTaskErrorView,
};
use crate::settlement::laws::Replies;
use crate::settlement::local_laws::{replies_of, update_calls, update_reached};
use crate::settlement::party::{PartyId, PartyLocalState, PartyStateTransition};
use crate::settlement::service::{Action, Reply, SettledAuth};
use crate::settlement::state::SettleInternalMatchTaskState;
use crate::settlement::step::StepWork;
use crate::settlement::submission::{sync_plan, BeforeStates, Submission, Transitions};
use crate::settlement::task::{SettleInternalMatchTask, SettleInternalMatchTaskDescriptor};
use crate::settlement::transcript::location_of;
use crate::settlement::update::{progress_of, PartyUpdate};
use crate::settlement::validity::ValidityUpdate;
use crate::traits::{Task, TaskError};

verus! {

/// The initiating party has the account, the order and the first obligation of the match,
/// the counterparty the other account, the other order and the second obligation. What is
/// known of a party after the settlement is likewise its own.
pub proof fn law_parties_are_told_apart(task: SettleInternalMatchTask)
    ensures
        task.account_of(PartyId::Party0) == task.account_id,
        task.account_of(PartyId::Party1) == task.other_account_id,
        task.order_of(PartyId::Party0) == task.order_id,
        task.order_of(PartyId::Party1) == task.other_order_id,
        task.obligation_of(PartyId::Party0) == task.match_result.party0_obligation,
        task.obligation_of(PartyId::Party1) == task.match_result.party1_obligation,
        task.updated_order_of(PartyId::Party0) == task.updated_order0,
        task.updated_order_of(PartyId::Party1) == task.updated_order1,
        task.updated_input_of(PartyId::Party0) == task.updated_input_balance0,
        task.updated_input_of(PartyId::Party1) == task.updated_input_balance1,
        task.updated_output_of(PartyId::Party0) == task.updated_output_balance0,
        task.updated_output_of(PartyId::Party1) == task.updated_output_balance1,
{
}

/// What is held for both parties has the initiating party first.
pub proof fn law_pairs_are_in_the_order_of_the_parties(
    party0: PartyStateTransition,
    party1: PartyStateTransition,
    before0: PartyLocalState,
    before1: PartyLocalState,
)
    ensures
        (Transitions { party0, party1 }).of(PartyId::Party0) == party0,
        (Transitions { party0, party1 }).of(PartyId::Party1) == party1,
        (BeforeStates { party0: before0, party1: before1 }).of(PartyId::Party0) == before0,
        (BeforeStates { party0: before0, party1: before1 }).of(PartyId::Party1) == before1,
{
}

/// To take note of the updated balances of a party changes these, and nothing else.
pub proof fn law_noting_balances_changes_them_alone(
    task: SettleInternalMatchTask,
    input_balance: Balance,
    output_balance: Balance,
)
    ensures
        task.with_balances(PartyId::Party0, input_balance, output_balance) == (
        SettleInternalMatchTask {
            updated_input_balance0: Some(input_balance),
            updated_output_balance0: Some(output_balance),
            ..task
        }),
        task.with_balances(PartyId::Party1, input_balance, output_balance) == (
        SettleInternalMatchTask {
            updated_input_balance1: Some(input_balance),
            updated_output_balance1: Some(output_balance),
            ..task
        }),
        task.with_input_balance(PartyId::Party0, input_balance) == (SettleInternalMatchTask {
            updated_input_balance0: Some(input_balance),
            ..task
        }),
        task.with_input_balance(PartyId::Party1, input_balance) == (SettleInternalMatchTask {
            updated_input_balance1: Some(input_balance),
            ..task
        }),
{
}

/// A new task is about what its descriptor says, has not begun, and knows nothing yet of
/// what the settlement leaves.
pub proof fn law_new_task_is_as_described(descriptor: SettleInternalMatchTaskDescriptor)
    ensures
        SettleInternalMatchTask::spec_new(descriptor) matches Ok(task) && {
            &&& task.account_id == descriptor.account_id
            &&& task.other_account_id == descriptor.other_account_id
            &&& task.order_id == descriptor.order_id
            &&& task.other_order_id == descriptor.other_order_id
            &&& task.execution_price == descriptor.execution_price
            &&& task.match_result == descriptor.match_result
            &&& task.updated_order0 is None
            &&& task.updated_order1 is None
            &&& task.updated_input_balance0 is None
            &&& task.updated_input_balance1 is None
            &&& task.updated_output_balance0 is None
            &&& task.updated_output_balance1 is None
            &&& task.task_state is Pending
            &&& !task.restored_from_queue
            &&& !task.spec_bypass_task_queue()
            &&& task.spec_task_state() == task.task_state
            &&& task.spec_name() == "settle-internal-match"@
        },
{
}

/// A restored task is about the same match as before, in the restored state. With a state
/// that has transitions, it knows of each party what that party's transition leads to;
/// with any other, what it knew before.
pub proof fn law_restored_task_keeps_its_match(
    task: SettleInternalMatchTask,
    state: SettleInternalMatchTaskState,
)
    ensures
        ({
            let restored = task.spec_restored(state);
            &&& restored.account_id == task.account_id
            &&& restored.other_account_id == task.other_account_id
            &&& restored.order_id == task.order_id
            &&& restored.other_order_id == task.other_order_id
            &&& restored.execution_price == task.execution_price
            &&& restored.match_result == task.match_result
            &&& restored.task_state == state
            &&& restored.restored_from_queue
            &&& match state {
                SettleInternalMatchTaskState::SubmittingTxPlanned { party0, party1 }
                | SettleInternalMatchTaskState::UpdatingState { party0, party1 } => {
                    &&& restored.updated_order0 == Some(party0.order_after)
                    &&& restored.updated_order1 == Some(party1.order_after)
                    &&& restored.updated_input_balance0 == party0.input_balance_after
                    &&& restored.updated_input_balance1 == party1.input_balance_after
                    &&& restored.updated_output_balance0 == party0.output_balance_after
                    &&& restored.updated_output_balance1 == party1.output_balance_after
                },
                _ => {
                    &&& restored.updated_order0 == task.updated_order0
                    &&& restored.updated_order1 == task.updated_order1
                    &&& restored.updated_input_balance0 == task.updated_input_balance0
                    &&& restored.updated_input_balance1 == task.updated_input_balance1
                    &&& restored.updated_output_balance0 == task.updated_output_balance0
                    &&& restored.updated_output_balance1 == task.updated_output_balance1
                },
            }
        }),
{
}

/// A transition leads a party from its local state to what the task knows of that party,
/// and there is none while the updated order of the party is not known.
pub proof fn law_transition_joins_before_and_after(
    task: SettleInternalMatchTask,
    before: PartyLocalState,
)
    ensures
        task.transition_of(PartyId::Party0, before) is Ok <==> task.updated_order0 is Some,
        task.transition_of(PartyId::Party1, before) is Ok <==> task.updated_order1 is Some,
        forall|party: PartyId| #[trigger]
            task.transition_of(party, before) matches Ok(transition) ==> {
                &&& transition.account_id == before.account_id
                &&& transition.order_id == before.order_id
                &&& transition.order_before == before.order
                &&& transition.input_balance_before == before.input_balance
                &&& transition.output_balance_before == before.output_balance
            },
        task.transition_of(PartyId::Party0, before) matches Ok(transition) ==> {
            &&& task.updated_order0 == Some(transition.order_after)
            &&& task.updated_input_balance0 == transition.input_balance_after
            &&& task.updated_output_balance0 == transition.output_balance_after
        },
        task.transition_of(PartyId::Party1, before) matches Ok(transition) ==> {
            &&& task.updated_order1 == Some(transition.order_after)
            &&& task.updated_input_balance1 == transition.input_balance_after
            &&& task.updated_output_balance1 == transition.output_balance_after
        },
        forall|party: PartyId| #[trigger]
            task.transition_of(party, before) matches Err(error) ==> error
                == missing_updated_order(),
{
}

/// The Merkle proofs to take from a receipt for a party are that of the party's updated
/// order and, if and only if that order is of the second ring, those of the party's own
/// updated balances, both of them.
pub proof fn law_receipt_proofs_are_the_partys_own(task: SettleInternalMatchTask)
    ensures
        task.updated_order0 matches Some(order) ==> {
            let proofs = task.receipt_proofs_of(PartyId::Party0);
            &&& proofs.order == order
            &&& proofs.balances is Some <==> order.ring is Ring2
            &&& proofs.balances matches Some(balances) ==> {
                &&& balances.account_id == task.account_id
                &&& task.updated_input_balance0 matches Some(balance) ==> balances.input_balance
                    == balance
                &&& task.updated_output_balance0 matches Some(balance) ==> balances.output_balance
                    == balance
            }
        },
        task.updated_order1 matches Some(order) ==> {
            let proofs = task.receipt_proofs_of(PartyId::Party1);
            &&& proofs.order == order
            &&& proofs.balances is Some <==> order.ring is Ring2
            &&& proofs.balances matches Some(balances) ==> {
                &&& balances.account_id == task.other_account_id
                &&& task.updated_input_balance1 matches Some(balance) ==> balances.input_balance
                    == balance
                &&& task.updated_output_balance1 matches Some(balance) ==> balances.output_balance
                    == balance
            }
        },
        task.knows_update_of(PartyId::Party0) <==> (task.updated_order0 matches Some(order) && (
        order.ring is Ring2 ==> task.updated_input_balance0 is Some
            && task.updated_output_balance0 is Some)),
        task.knows_update_of(PartyId::Party1) <==> (task.updated_order1 matches Some(order) && (
        order.ring is Ring2 ==> task.updated_input_balance1 is Some
            && task.updated_output_balance1 is Some)),
{
}

/// Orders of the first two rings have their balances in the owner's own account, those of
/// the others in the darkpool.
pub proof fn law_balances_stand_by_ring(ring: PrivacyRing)
    ensures
        ring.spec_balance_location() == BalanceLocation::EOA <==> ring is Ring0 || ring is Ring1,
        ring.spec_balance_location() == BalanceLocation::Darkpool <==> ring is Ring2
            || ring is Ring3,
{
}

/// To capture the local state of a party, its own order is read, then its balance in the
/// order's input token and, in the darkpool, that in the output token, each where the ring
/// of the order has its balances. What is captured is what was read, under the party's own
/// account and order.
pub proof fn law_capture_reads_the_partys_own_state(
    task: SettleInternalMatchTask,
    party: PartyId,
    order: Order,
    input_balance: Option<Balance>,
    output_balance: Option<Balance>,
)
    ensures
        ({
            let account_id = if party is Party0 {
                task.account_id
            } else {
                task.other_account_id
            };
            let order_id = if party is Party0 {
                task.order_id
            } else {
                task.other_order_id
            };
            let eoa = order.ring is Ring0 || order.ring is Ring1;
            let first = Capture::Order.after_reply(task, party, Reply::Order(order));
            let second = first.after_reply(task, party, Reply::StoredBalance(input_balance));
            let third = second.after_reply(task, party, Reply::StoredBalance(output_balance));
            &&& Capture::Order.next_action(task, party) == Action::ReadOrder { order_id }
            &&& first.next_action(task, party) == Action::ReadBalance {
                account_id,
                token: order.input_token,
                location: if eoa {
                    BalanceLocation::EOA
                } else {
                    BalanceLocation::Darkpool
                },
            }
            &&& eoa ==> second == (Capture::Captured {
                state: PartyLocalState {
                    account_id,
                    order_id,
                    order,
                    input_balance,
                    output_balance: None,
                },
            })
            &&& !eoa ==> !(second is Captured) && second.next_action(task, party)
                == Action::ReadBalance {
                account_id,
                token: order.output_token,
                location: BalanceLocation::Darkpool,
            }
            &&& !eoa ==> third == (Capture::Captured {
                state: PartyLocalState {
                    account_id,
                    order_id,
                    order,
                    input_balance,
                    output_balance,
                },
            })
        }),
{
}

/// A local state is one of a party if and only if it is under the party's own account and
/// order, and has no output balance outside the darkpool.
pub proof fn law_local_states_are_the_partys_own(
    state: PartyLocalState,
    task: SettleInternalMatchTask,
)
    ensures
        is_local_state_of(state, task, PartyId::Party0) <==> {
            &&& state.account_id == task.account_id
            &&& state.order_id == task.order_id
            &&& location_of(state.order) == BalanceLocation::EOA ==> state.output_balance is None
        },
        is_local_state_of(state, task, PartyId::Party1) <==> {
            &&& state.account_id == task.other_account_id
            &&& state.order_id == task.other_order_id
            &&& location_of(state.order) == BalanceLocation::EOA ==> state.output_balance is None
        },
{
}

/// The local leg of a party first reads the party's own local state: its order, its balance
/// in the order's input token and, in the darkpool, that in the output token.
pub proof fn law_local_leg_reads_the_partys_own_state(
    task: SettleInternalMatchTask,
    party: PartyId,
    transition: PartyStateTransition,
    state: PartyLocalState,
)
    ensures
        ({
            let account_id = if party is Party0 {
                task.account_id
            } else {
                task.other_account_id
            };
            let order_id = if party is Party0 {
                task.order_id
            } else {
                task.other_order_id
            };
            let reads = replies_of(state);
            &&& reads.len() == if location_of(state.order) == BalanceLocation::EOA {
                2nat
            } else {
                3nat
            }
            &&& update_calls(task, party, transition, reads, 0, Action::ReadOrder { order_id })
            &&& update_calls(
                task,
                party,
                transition,
                reads,
                1,
                Action::ReadBalance {
                    account_id,
                    token: state.order.input_token,
                    location: location_of(state.order),
                },
            )
            &&& location_of(state.order) == BalanceLocation::Darkpool ==> update_calls(
                task,
                party,
                transition,
                reads,
                2,
                Action::ReadBalance {
                    account_id,
                    token: state.order.output_token,
                    location: BalanceLocation::Darkpool,
                },
            )
        }),
{
    reveal_with_fuel(update_reached, 4);
    let reads = replies_of(state);
    assert(reads[0] == Ok::<Reply, SettleInternalMatchTaskError>(Reply::Order(state.order)));
    assert(reads[1] == Ok::<Reply, SettleInternalMatchTaskError>(
        Reply::StoredBalance(state.input_balance),
    ));
}

/// What the local leg of a party writes is for the party's own account and obligation, and
/// is what the transition leads to: both balances where it leads to both, the EOA balance
/// of an EOA order, and the order.
pub proof fn law_local_leg_writes_the_partys_own_state(
    task: SettleInternalMatchTask,
    party: PartyId,
    transition: PartyStateTransition,
)
    ensures
        ({
            let writing = PartyUpdate::WritingBalances { transition };
            &&& writing.next_action(task, party) matches Action::WriteBalances {
                account_id,
                order,
                obligation,
                balances,
                eoa_balance,
            }
            &&& party is Party0 ==> account_id == task.account_id && obligation
                == task.match_result.party0_obligation
            &&& party is Party1 ==> account_id == task.other_account_id && obligation
                == task.match_result.party1_obligation
            &&& order == transition.order_after
            &&& balances is Some <==> transition.input_balance_after is Some
                && transition.output_balance_after is Some
            &&& balances matches Some((input_balance, output_balance)) ==> {
                &&& transition.input_balance_after == Some(input_balance)
                &&& transition.output_balance_after == Some(output_balance)
            }
            &&& location_of(transition.order_after) == BalanceLocation::EOA ==> eoa_balance
                == transition.input_balance_after
            &&& location_of(transition.order_after) == BalanceLocation::Darkpool
                ==> eoa_balance is None
        }),
        ({
            let writing = PartyUpdate::WritingOrder { transition };
            &&& writing.next_action(task, party) matches Action::WriteOrder { order }
            &&& order == transition.order_after
        }),
{
}

/// A failed call ends the local leg of a party with the failure of that call.
pub proof fn law_failed_call_ends_the_local_leg(
    task: SettleInternalMatchTask,
    party: PartyId,
    update: PartyUpdate,
    error: SettleInternalMatchTaskError,
)
    ensures
        update.after_reply(task, party, Err(error)) == Err::<
            PartyUpdate,
            SettleInternalMatchTaskErrorView,
        >(error@),
{
}

/// Whether two orders agree in all that they say.
pub open spec fn same_order(order: Order, other: Order) -> bool {
    &&& order.id == other.id
    &&& order.ring == other.ring
    &&& order.input_token@ == other.input_token@
    &&& order.output_token@ == other.output_token@
    &&& order.commitment@ == other.commitment@
    &&& order.details@ == other.details@
}

/// Whether two balances agree in all that they say, or neither is there.
pub open spec fn same_balance(balance: Option<Balance>, other: Option<Balance>) -> bool {
    match (balance, other) {
        (Some(balance), Some(other)) => {
            &&& balance.mint@ == other.mint@
            &&& balance.commitment@ == other.commitment@
            &&& balance.details@ == other.details@
        },
        (None, None) => true,
        _ => false,
    }
}

/// Whether a local state is, in all that it says, the one from which a transition starts.
pub open spec fn is_before(transition: PartyStateTransition, state: PartyLocalState) -> bool {
    &&& state.account_id == transition.account_id
    &&& state.order_id == transition.order_id
    &&& same_order(state.order, transition.order_before)
    &&& same_balance(state.input_balance, transition.input_balance_before)
    &&& same_balance(state.output_balance, transition.output_balance_before)
}

/// Whether a local state is, in all that it says, the one to which a transition leads.
pub open spec fn is_after(transition: PartyStateTransition, state: PartyLocalState) -> bool {
    &&& state.account_id == transition.account_id
    &&& state.order_id == transition.order_id
    &&& same_order(state.order, transition.order_after)
    &&& same_balance(state.input_balance, transition.input_balance_after)
    &&& same_balance(state.output_balance, transition.output_balance_after)
}

/// A transition counts as applied on exactly the local state to which it leads, as not yet
/// applied on exactly the one from which it starts, if that is another one, and on any
/// other as neither: no part of a local state is left out of the comparison.
pub proof fn law_progress_goes_by_the_whole_state(
    transition: PartyStateTransition,
    state: PartyLocalState,
)
    ensures
        progress_of(transition@, state@) is AlreadyApplied <==> is_after(transition, state),
        progress_of(transition@, state@) is NotApplied <==> is_before(transition, state)
            && !is_after(transition, state),
        progress_of(transition@, state@) is Unexpected <==> !is_before(transition, state)
            && !is_after(transition, state),
        state@ == transition@.before() <==> is_before(transition, state),
        state@ == transition@.after() <==> is_after(transition, state),
{
}

/// Two transitions are the same if and only if they start from the same local state and
/// lead to the same one.
pub proof fn law_transitions_are_compared_as_a_whole(
    transition: PartyStateTransition,
    other: PartyStateTransition,
)
    ensures
        transition@ == other@ <==> {
            &&& transition.account_id == other.account_id
            &&& transition.order_id == other.order_id
            &&& same_order(transition.order_before, other.order_before)
            &&& same_order(transition.order_after, other.order_after)
            &&& same_balance(transition.input_balance_before, other.input_balance_before)
            &&& same_balance(transition.input_balance_after, other.input_balance_after)
            &&& same_balance(transition.output_balance_before, other.output_balance_before)
            &&& same_balance(transition.output_balance_after, other.output_balance_after)
        },
{
}

/// Each state of a task has its own work: none while it is pending; the on-chain leg, from
/// its beginning or from the persisted transitions; the local leg of both parties, each
/// with its own transition; the validity proofs of both parties. Of both parties the work
/// is all still to be done.
pub proof fn law_every_state_has_its_work(task: SettleInternalMatchTask)
    ensures
        task.task_state is Pending ==> task.step_work() == Ok::<
            StepWork,
            SettleInternalMatchTaskErrorView,
        >(StepWork::Done),
        task.task_state is SubmittingTx && !task.restored_from_queue ==> task.step_work() == Ok::<
            StepWork,
            SettleInternalMatchTaskErrorView,
        >(
            StepWork::Submit {
                submission: Submission::Capturing { captured: None, capture: Capture::Order },
            },
        ),
        task.task_state is SubmittingTx && task.restored_from_queue ==> task.step_work() == Err::<
            StepWork,
            SettleInternalMatchTaskErrorView,
        >(not_finalized()),
        task.task_state matches SettleInternalMatchTaskState::UpdatingState { party0, party1 }
            ==> task.step_work() == Ok::<StepWork, SettleInternalMatchTaskErrorView>(
            StepWork::UpdateState {
                updates: (
                    PartyUpdate::Capturing { transition: party0, capture: Capture::Order },
                    PartyUpdate::Capturing { transition: party1, capture: Capture::Order },
                ),
            },
        ),
        task.task_state is UpdatingValidityProofs ==> task.step_work() == Ok::<
            StepWork,
            SettleInternalMatchTaskErrorView,
        >(
            StepWork::UpdateValidityProofs {
                proofs: (ValidityUpdate::ReadingOrder, ValidityUpdate::ReadingOrder),
            },
        ),
        task.task_state is SubmittingTxPlanned ==> (task.step_work() matches Ok(work)
            ==> work is Submit),
{
}

/// Where the validity proofs of a party stand after the first `count` replies, as long as
/// they have neither failed nor ended before, and every reply answers its call.
pub open spec fn validity_reached(
    task: SettleInternalMatchTask,
    party: PartyId,
    replies: Replies,
    count: nat,
) -> Option<ValidityUpdate>
    decreases count,
{
    if count == 0 {
        Some(ValidityUpdate::ReadingOrder)
    } else if count > replies.len() {
        None
    } else {
        let reply = replies[count - 1];
        match validity_reached(task, party, replies, (count - 1) as nat) {
            Some(update) => if update is Proven || (reply is Ok && !update.next_action(
                task,
                party,
            ).answered_by(reply->Ok_0)) {
                None
            } else {
                match update.after_reply(reply) {
                    Ok(next) => Some(next),
                    Err(_) => None,
                }
            },
            None => None,
        }
    }
}

/// Whether the validity update of a party makes a call after the first `index` replies.
pub open spec fn validity_calls(
    task: SettleInternalMatchTask,
    party: PartyId,
    replies: Replies,
    index: nat,
    action: Action,
) -> bool {
    match validity_reached(task, party, replies, index) {
        Some(update) => !(update is Proven) && update.next_action(task, party) == action,
        None => false,
    }
}

/// Every call that the validity update of a party makes is about that party's own order
/// and account, and no proof is forced.
pub proof fn law_validity_calls_go_by_their_party(
    task: SettleInternalMatchTask,
    party: PartyId,
    update: ValidityUpdate,
)
    ensures
        ({
            let account = if party is Party0 {
                task.account_id
            } else {
                task.other_account_id
            };
            let order = if party is Party0 {
                task.order_id
            } else {
                task.other_order_id
            };
            match update.next_action(task, party) {
                Action::ReadOrder { order_id }
                | Action::ReadSettledAuth { order_id }
                | Action::ProveIntentOnly { order_id } => order_id == order,
                Action::ProveIntentAndBalance { account_id, order_id, .. } => account_id == account
                    && order_id == order,
                Action::ProveOutputBalance { account_id, order_id, force, .. } => account_id
                    == account && order_id == order && !force,
                _ => false,
            }
        }),
{
}

/// The validity proofs of a party go by the ring of its order. There are none for a fully
/// public order; the intent is proven for one of the first ring; for one of the second,
/// the signatures are read, the intent is proven together with the input balance, by the
/// one signature, and the output balance by the other. Each is for the party's own order
/// and account, and only its success leads on.
pub proof fn law_validity_is_proven_by_ring(
    task: SettleInternalMatchTask,
    party: PartyId,
    replies: Replies,
    order: Order,
    auth: SettledAuth,
)
    requires
        replies.len() >= 4,
        replies[0] == Ok::<Reply, SettleInternalMatchTaskError>(Reply::Order(order)),
        order.ring is Ring1 ==> replies[1] == Ok::<Reply, SettleInternalMatchTaskError>(
            Reply::Done,
        ),
        order.ring is Ring2 ==> {
            &&& replies[1] == Ok::<Reply, SettleInternalMatchTaskError>(Reply::Auth(auth))
            &&& replies[2] == Ok::<Reply, SettleInternalMatchTaskError>(Reply::Done)
            &&& replies[3] == Ok::<Reply, SettleInternalMatchTaskError>(Reply::Done)
        },
    ensures
        ({
            let account_id = if party is Party0 {
                task.account_id
            } else {
                task.other_account_id
            };
            let order_id = if party is Party0 {
                task.order_id
            } else {
                task.other_order_id
            };
            &&& validity_calls(task, party, replies, 0, Action::ReadOrder { order_id })
            &&& order.ring is Ring0 ==> validity_reached(task, party, replies, 1) == Some(
                ValidityUpdate::Proven,
            )
            &&& order.ring is Ring1 ==> {
                &&& validity_calls(task, party, replies, 1, Action::ProveIntentOnly { order_id })
                &&& validity_reached(task, party, replies, 2) == Some(ValidityUpdate::Proven)
            }
            &&& order.ring is Ring2 ==> {
                &&& validity_calls(task, party, replies, 1, Action::ReadSettledAuth { order_id })
                &&& validity_calls(
                    task,
                    party,
                    replies,
                    2,
                    Action::ProveIntentAndBalance {
                        account_id,
                        order_id,
                        signature: auth.intent_signature,
                    },
                )
                &&& validity_calls(
                    task,
                    party,
                    replies,
                    3,
                    Action::ProveOutputBalance {
                        account_id,
                        order_id,
                        signature: auth.output_balance_signature,
                        force: false,
                    },
                )
                &&& validity_reached(task, party, replies, 4) == Some(ValidityUpdate::Proven)
            }
        }),
{
    reveal_with_fuel(validity_reached, 5);
}

/// A validity update ends only after the proofs that the ring of the party's order asks
/// for were made with success: after the one for an order of the first ring, after both
/// for one of the second.
pub proof fn law_proven_validity_was_proven(
    task: SettleInternalMatchTask,
    party: PartyId,
    replies: Replies,
    count: nat,
)
    requires
        validity_reached(task, party, replies, count) == Some(ValidityUpdate::Proven),
    ensures
        replies.len() >= count,
        replies[0] matches Ok(Reply::Order(order)) && {
            &&& order.ring is Ring0 ==> count == 1
            &&& order.ring is Ring1 ==> count == 2 && replies[1] is Ok && validity_calls(
                task,
                party,
                replies,
                1,
                Action::ProveIntentOnly {
                    order_id: if party is Party0 {
                        task.order_id
                    } else {
                        task.other_order_id
                    },
                },
            )
            &&& order.ring is Ring2 ==> {
                &&& count == 4
                &&& replies[2] is Ok
                &&& replies[3] is Ok
                &&& replies[1] matches Ok(Reply::Auth(auth)) && {
                    &&& validity_calls(
                        task,
                        party,
                        replies,
                        2,
                        Action::ProveIntentAndBalance {
                            account_id: if party is Party0 {
                                task.account_id
                            } else {
                                task.other_account_id
                            },
                            order_id: if party is Party0 {
                                task.order_id
                            } else {
                                task.other_order_id
                            },
                            signature: auth.intent_signature,
                        },
                    )
                    &&& validity_calls(
                        task,
                        party,
                        replies,
                        3,
                        Action::ProveOutputBalance {
                            account_id: if party is Party0 {
                                task.account_id
                            } else {
                                task.other_account_id
                            },
                            order_id: if party is Party0 {
                                task.order_id
                            } else {
                                task.other_order_id
                            },
                            signature: auth.output_balance_signature,
                            force: false,
                        },
                    )
                }
            }
        },
{
    lemma_validity_prefix(task, party, replies, count);
    reveal_with_fuel(validity_reached, 5);
    if count > 4 {
        lemma_validity_prefix(task, party, replies, 4);
    }
}

/// A validity update that has come to a point has come to one after each reply before, and
/// is over after four replies.
proof fn lemma_validity_prefix(
    task: SettleInternalMatchTask,
    party: PartyId,
    replies: Replies,
    count: nat,
)
    requires
        validity_reached(task, party, replies, count) is Some,
    ensures
        count <= replies.len(),
        count <= 4,
    decreases count,
{
    reveal_with_fuel(validity_reached, 5);
    if count > 0 {
        lemma_validity_prefix(task, party, replies, (count - 1) as nat);
    }
}

/// A failed call ends the validity update of a party with the failure of that call.
pub proof fn law_failed_call_ends_the_validity_update(
    update: ValidityUpdate,
    error: SettleInternalMatchTaskError,
)
    ensures
        update.after_reply(Err(error)) == Err::<ValidityUpdate, SettleInternalMatchTaskErrorView>(
            error@,
        ),
{
}

/// Only a failure of the global state is worth another try; in particular, a refusal is
/// not, and it is told as a failure of settlement.
pub proof fn law_refusals_are_final(error: SettleInternalMatchTaskError, order_id: u128)
    ensures
        error.spec_retryable() <==> error@ is State,
        not_finalized() is Settlement,
        unexpected_local_state(order_id) is Settlement,
        missing_updated_order() is Settlement,
        missing_recovery_payload() is Settlement,
        error@ == not_finalized() || error@ == unexpected_local_state(order_id) || error@
            == missing_updated_order() || error@ == missing_recovery_payload()
            ==> !error.spec_retryable(),
{
}

/// A call is answered by what it asks for: an order, a stored balance, a built balance, a
/// bundle, signatures, or by no more than that it is done.
pub proof fn law_calls_are_answered_in_kind(action: Action, reply: Reply)
    ensures
        action.answered_by(reply) <==> {
            &&& reply is Order <==> action is ReadOrder || action is BuildUpdatedIntent
            &&& reply is StoredBalance <==> action is ReadBalance
            &&& reply is BuiltBalance <==> action is BuildInputBalance
                || action is BuildOutputBalance || action is BuildEoaBalance
            &&& reply is Bundle <==> action is BuildBundle
            &&& reply is Auth <==> action is ReadSettledAuth
        },
{
}

/// A task at its on-chain leg has that leg as its work, or is refused with it.
pub proof fn law_first_leg_is_the_work(task: SettleInternalMatchTask)
    requires
        task.task_state is SubmittingTx || task.task_state is SubmittingTxPlanned,
    ensures
        match Submission::begin(task) {
            Ok(submission) => task.step_work() == Ok::<StepWork, SettleInternalMatchTaskErrorView>(
                StepWork::Submit { submission },
            ),
            Err(error) => task.step_work() == Err::<StepWork, SettleInternalMatchTaskErrorView>(
                error,
            ),
        },
{
}

/// The Merkle proofs of a party that are rebuilt from chain are none for a fully public
/// order, that of the order for any other, and for one of the second ring also those of
/// the input balance and of the output balance after the settlement, in this order.
pub proof fn law_rebuilt_proofs_go_by_ring(transition: PartyStateTransition)
    ensures
        ({
            let plan = sync_plan(transition);
            &&& plan.len() == match transition.order_after.ring {
                PrivacyRing::Ring0 => 0nat,
                PrivacyRing::Ring2 => 3nat,
                _ => 1nat,
            }
            &&& !(transition.order_after.ring is Ring0) ==> {
                &&& plan[0] matches Action::SyncIntentProof { order_id, commitment }
                &&& order_id == transition.order_after.id
                &&& commitment == transition.order_after.commitment
            }
            &&& transition.order_after.ring is Ring2 ==> {
                &&& plan[1] matches Action::SyncBalanceProof { account_id, mint, commitment }
                &&& account_id == transition.account_id
                &&& transition.input_balance_after matches Some(balance) ==> mint == balance.mint
                    && commitment == balance.commitment
            }
            &&& transition.order_after.ring is Ring2 ==> {
                &&& plan[2] matches Action::SyncBalanceProof { account_id, mint, commitment }
                &&& account_id == transition.account_id
                &&& transition.output_balance_after matches Some(balance) ==> mint == balance.mint
                    && commitment == balance.commitment
            }
        }),
{
}

/// A refusal says why the task was refused, and one of an unexpected local state of which
/// order.
pub proof fn law_refusals_say_why(order_id: u128)
    ensures
        not_finalized()->Settlement_0
            == "recovered settlement is still in SubmittingTx and chain finalization could not be proven; refusing to apply local state"@,
        missing_updated_order()->Settlement_0
            == "updated order missing while building settlement recovery state"@,
        missing_recovery_payload()->Settlement_0
            == "queued settlement has no readable recovery payload; refusing to rerun"@,
        unexpected_local_state(order_id)->Settlement_0 == "recovered settlement for order "@
            + uuid_text(order_id) + " is in an unexpected local state; refusing to replay"@,
{
}

/// An error is told with what failed before its message.
pub proof fn law_errors_are_told_with_their_source(error: SettleInternalMatchTaskError)
    ensures
        match error {
            SettleInternalMatchTaskError::Darkpool(message) => error@.text()
                == "darkpool client error: "@ + message@,
            SettleInternalMatchTaskError::Settlement(message) => error@.text()
                == "settlement error: "@ + message@,
            SettleInternalMatchTaskError::State(message) => error@.text() == "state error: "@
                + message@,
            SettleInternalMatchTaskError::ValidityProofs(message) => error@.text()
                == "validity proof error: "@ + message@,
        },
        error.spec_retryable() <==> error is State,
{
}

} // verus!
