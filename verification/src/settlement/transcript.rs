//! What a run of the on-chain leg asks of the services, and what becomes of the answers.
use vstd::prelude::*;

use crate::account::{Balance, BalanceLocation, Commitment, Order, TokenAddress};
use crate::ids::{AccountId, OrderId};
use crate::settlement::capture::Capture;
use crate::settlement::error::{SettleInternalMatchTaskError, SettleInternalMatchTaskErrorView};
use crate::settlement::laws::{
    at_first_leg, calls, law_run_keeps_invariant, lemma_last_reply, lemma_no_reply, reached,
    Replies,
};
use crate::settlement::party::{
    PartyId, PartyLocalState, PartyStateTransition, SettlementObligation,
};
use crate::settlement::service::{Action, BalanceProofs, BundleHandle, ReceiptProofs, Reply};
use crate::settlement::state::SettleInternalMatchTaskState;
use crate::settlement::submission::{
    full_sync_plan, sync_plan, transitions_of, Groundwork, Submission, Transitions,
};
use crate::settlement::task::SettleInternalMatchTask;

verus! {

/// Whether, among the first `count` calls of a run, there is one with the given answer.
#[verifier::opaque]
pub open spec fn answered(
    task: SettleInternalMatchTask,
    replies: Replies,
    count: nat,
    action: Action,
    reply: Reply,
) -> bool {
    exists|index: nat|
        index < count && index < replies.len() && replies[index as int] == Ok::<
            Reply,
            SettleInternalMatchTaskError,
        >(reply) && #[trigger] calls(task, replies, index, action)
}

/// What was answered stays answered.
proof fn lemma_answers_stay(task: SettleInternalMatchTask, replies: Replies, count: nat)
    ensures
        forall|action: Action, reply: Reply| #[trigger]
            answered(task, replies, count, action, reply) ==> answered(
                task,
                replies,
                count + 1,
                action,
                reply,
            ),
{
    assert forall|action: Action, reply: Reply| #[trigger]
        answered(task, replies, count, action, reply) implies answered(
        task,
        replies,
        count + 1,
        action,
        reply,
    ) by {
        reveal(answered);
        let index = choose|index: nat|
            index < count && index < replies.len() && replies[index as int] == Ok::<
                Reply,
                SettleInternalMatchTaskError,
            >(reply) && #[trigger] calls(task, replies, index, action);
        assert(calls(task, replies, index, action));
    }
}

/// A call that was answered last was answered.
proof fn lemma_last_answer(
    task: SettleInternalMatchTask,
    replies: Replies,
    count: nat,
    action: Action,
)
    requires
        count < replies.len(),
        calls(task, replies, count, action),
    ensures
        replies[count as int] matches Ok(reply) ==> answered(
            task,
            replies,
            count + 1,
            action,
            reply,
        ),
{
    reveal(answered);
}

/// Where the balances of an order stand: those of the first two rings in the owner's own
/// account, those of the others in the darkpool.
pub open spec fn location_of(order: Order) -> BalanceLocation {
    if order.ring is Ring0 || order.ring is Ring1 {
        BalanceLocation::EOA
    } else {
        BalanceLocation::Darkpool
    }
}

/// Whether a run was told of an order, under the identifier of a party's order.
pub open spec fn order_was_read(
    task: SettleInternalMatchTask,
    replies: Replies,
    count: nat,
    order_id: OrderId,
    order: Order,
) -> bool {
    answered(task, replies, count, Action::ReadOrder { order_id }, Reply::Order(order))
}

/// Whether a run was told of a balance of a party, or that it has none, where the balances
/// of its order stand.
pub open spec fn balance_was_read(
    task: SettleInternalMatchTask,
    replies: Replies,
    count: nat,
    account_id: AccountId,
    order: Order,
    token: TokenAddress,
    balance: Option<Balance>,
) -> bool {
    answered(
        task,
        replies,
        count,
        Action::ReadBalance { account_id, token, location: location_of(order) },
        Reply::StoredBalance(balance),
    )
}

/// Whether a run was told of all of a local state: of the order, of the balance in its
/// input token, and, in the darkpool, of the balance in its output token.
pub open spec fn state_was_read(
    task: SettleInternalMatchTask,
    replies: Replies,
    count: nat,
    account_id: AccountId,
    order_id: OrderId,
    order: Order,
    input_balance: Option<Balance>,
    output_balance: Option<Balance>,
) -> bool {
    &&& order_was_read(task, replies, count, order_id, order)
    &&& balance_was_read(
        task,
        replies,
        count,
        account_id,
        order,
        order.input_token,
        input_balance,
    )
    &&& if location_of(order) == BalanceLocation::EOA {
        output_balance is None
    } else {
        balance_was_read(
            task,
            replies,
            count,
            account_id,
            order,
            order.output_token,
            output_balance,
        )
    }
}

/// Whether a run was told the settlement bundle of an order for an obligation.
pub open spec fn bundle_was_told(
    task: SettleInternalMatchTask,
    replies: Replies,
    count: nat,
    order_id: OrderId,
    obligation: SettlementObligation,
    bundle: BundleHandle,
) -> bool {
    answered(
        task,
        replies,
        count,
        Action::BuildBundle { order_id, obligation },
        Reply::Bundle(bundle),
    )
}

/// Whether a run was told that an obligation leaves an order as given.
pub open spec fn intent_was_told(
    task: SettleInternalMatchTask,
    replies: Replies,
    count: nat,
    order_id: OrderId,
    obligation: SettlementObligation,
    order: Order,
) -> bool {
    answered(
        task,
        replies,
        count,
        Action::BuildUpdatedIntent { order_id, obligation },
        Reply::Order(order),
    )
}

/// Whether a run was told the input balance that an obligation leaves in the darkpool.
pub open spec fn input_was_told(
    task: SettleInternalMatchTask,
    replies: Replies,
    count: nat,
    account_id: AccountId,
    obligation: SettlementObligation,
    balance: Balance,
) -> bool {
    answered(
        task,
        replies,
        count,
        Action::BuildInputBalance { account_id, obligation },
        Reply::BuiltBalance(balance),
    )
}

/// Whether a run was told the balances that an obligation leaves for an updated order:
/// both for an order of the second ring, without fees; the input balance for an EOA order,
/// from the one that was read. Where nothing is to be told, `fresh` says that nothing was
/// known either.
pub open spec fn balances_were_told(
    task: SettleInternalMatchTask,
    replies: Replies,
    count: nat,
    account_id: AccountId,
    obligation: SettlementObligation,
    order: Order,
    input_before: Option<Balance>,
    input_after: Option<Balance>,
    output_after: Option<Balance>,
    fresh: bool,
) -> bool {
    if order.ring is Ring2 {
        &&& input_after matches Some(balance) && input_was_told(
            task,
            replies,
            count,
            account_id,
            obligation,
            balance,
        )
        &&& output_after matches Some(balance) && answered(
            task,
            replies,
            count,
            Action::BuildOutputBalance { account_id, order, obligation, apply_fees: false },
            Reply::BuiltBalance(balance),
        )
    } else {
        &&& fresh ==> output_after is None
        &&& if location_of(order) == BalanceLocation::EOA && input_before is Some {
            input_after matches Some(balance) && answered(
                task,
                replies,
                count,
                Action::BuildEoaBalance {
                    account_id,
                    order,
                    obligation,
                    balance: input_before->0,
                },
                Reply::BuiltBalance(balance),
            )
        } else {
            fresh ==> input_after is None
        }
    }
}

/// Whether all that a transition of a party says was told in a run: what it starts from,
/// and what the party's own obligation leaves of it.
pub open spec fn transition_was_told(
    task: SettleInternalMatchTask,
    replies: Replies,
    count: nat,
    account_id: AccountId,
    order_id: OrderId,
    obligation: SettlementObligation,
    transition: PartyStateTransition,
    fresh: bool,
) -> bool {
    &&& transition.account_id == account_id
    &&& transition.order_id == order_id
    &&& state_was_read(
        task,
        replies,
        count,
        account_id,
        order_id,
        transition.order_before,
        transition.input_balance_before,
        transition.output_balance_before,
    )
    &&& intent_was_told(task, replies, count, order_id, obligation, transition.order_after)
    &&& balances_were_told(
        task,
        replies,
        count,
        account_id,
        obligation,
        transition.order_after,
        transition.input_balance_before,
        transition.input_balance_after,
        transition.output_balance_after,
        fresh,
    )
}

/// The Merkle proofs that the receipt of a settlement has for a transition: that of the
/// order and, for one of the second ring, those of both balances.
pub open spec fn proofs_in_receipt(transition: PartyStateTransition) -> ReceiptProofs {
    ReceiptProofs {
        order: transition.order_after,
        balances: if transition.order_after.ring is Ring2 {
            Some(
                BalanceProofs {
                    account_id: transition.account_id,
                    input_balance: transition.input_balance_after->0,
                    output_balance: transition.output_balance_after->0,
                },
            )
        } else {
            None
        },
    }
}

/// Whether nothing is known of the balances of either party after the settlement, as in a
/// task that was just made from its descriptor.
pub open spec fn knows_no_balances(task: SettleInternalMatchTask) -> bool {
    &&& task.updated_input_balance0 is None
    &&& task.updated_input_balance1 is None
    &&& task.updated_output_balance0 is None
    &&& task.updated_output_balance1 is None
}

/// Whether what has been read of a local state was told in a run.
spec fn capture_was_told(
    task: SettleInternalMatchTask,
    replies: Replies,
    count: nat,
    account_id: AccountId,
    order_id: OrderId,
    capture: Capture,
) -> bool {
    match capture {
        Capture::Order => true,
        Capture::InputBalance { order } => order_was_read(task, replies, count, order_id, order),
        Capture::OutputBalance { order, input_balance } => {
            &&& order_was_read(task, replies, count, order_id, order)
            &&& balance_was_read(
                task,
                replies,
                count,
                account_id,
                order,
                order.input_token,
                input_balance,
            )
            &&& location_of(order) == BalanceLocation::Darkpool
        },
        Capture::Captured { state } => local_state_was_told(
            task,
            replies,
            count,
            account_id,
            order_id,
            state,
        ),
    }
}

/// Whether a local state is that of a party, and was told in a run.
spec fn local_state_was_told(
    task: SettleInternalMatchTask,
    replies: Replies,
    count: nat,
    account_id: AccountId,
    order_id: OrderId,
    state: PartyLocalState,
) -> bool {
    &&& state.account_id == account_id
    &&& state.order_id == order_id
    &&& state_was_read(
        task,
        replies,
        count,
        account_id,
        order_id,
        state.order,
        state.input_balance,
        state.output_balance,
    )
}

/// Whether the local states and the bundles that a submission rests on were told.
spec fn ground_was_told(
    task: SettleInternalMatchTask,
    replies: Replies,
    count: nat,
    ground: Groundwork,
) -> bool {
    &&& local_state_was_told(
        task,
        replies,
        count,
        task.account_id,
        task.order_id,
        ground.before.party0,
    )
    &&& local_state_was_told(
        task,
        replies,
        count,
        task.other_account_id,
        task.other_order_id,
        ground.before.party1,
    )
    &&& bundles_were_told(task, replies, count, ground.bundle0, ground.bundle1)
}

/// Whether the bundles of both parties were told, each for the order and the obligation of
/// its party.
pub open spec fn bundles_were_told(
    task: SettleInternalMatchTask,
    replies: Replies,
    count: nat,
    bundle0: BundleHandle,
    bundle1: BundleHandle,
) -> bool {
    &&& bundle_was_told(
        task,
        replies,
        count,
        task.order_id,
        task.match_result.party0_obligation,
        bundle0,
    )
    &&& bundle_was_told(
        task,
        replies,
        count,
        task.other_order_id,
        task.match_result.party1_obligation,
        bundle1,
    )
}

/// Whether all that the transitions of both parties say was told in a run.
pub open spec fn transitions_were_told(
    task: SettleInternalMatchTask,
    replies: Replies,
    count: nat,
    transitions: Transitions,
) -> bool {
    &&& transition_was_told(
        task,
        replies,
        count,
        task.account_id,
        task.order_id,
        task.match_result.party0_obligation,
        transitions.party0,
        knows_no_balances(task),
    )
    &&& transition_was_told(
        task,
        replies,
        count,
        task.other_account_id,
        task.other_order_id,
        task.match_result.party1_obligation,
        transitions.party1,
        knows_no_balances(task),
    )
}

/// Whether the updated orders of both parties were told.
spec fn intents_were_told(
    task: SettleInternalMatchTask,
    replies: Replies,
    count: nat,
    now: SettleInternalMatchTask,
) -> bool {
    &&& now.updated_order0 matches Some(order) && intent_was_told(
        task,
        replies,
        count,
        task.order_id,
        task.match_result.party0_obligation,
        order,
    )
    &&& now.updated_order1 matches Some(order) && intent_was_told(
        task,
        replies,
        count,
        task.other_order_id,
        task.match_result.party1_obligation,
        order,
    )
}

/// Whether the updated balances of the initiating party were told.
spec fn balances0_were_told(
    task: SettleInternalMatchTask,
    replies: Replies,
    count: nat,
    now: SettleInternalMatchTask,
    ground: Groundwork,
) -> bool {
    balances_were_told(
        task,
        replies,
        count,
        task.account_id,
        task.match_result.party0_obligation,
        now.updated_order0->0,
        ground.before.party0.input_balance,
        now.updated_input_balance0,
        now.updated_output_balance0,
        knows_no_balances(task),
    )
}

/// Whether the updated balances of the counterparty were told.
spec fn balances1_were_told(
    task: SettleInternalMatchTask,
    replies: Replies,
    count: nat,
    now: SettleInternalMatchTask,
    ground: Groundwork,
) -> bool {
    balances_were_told(
        task,
        replies,
        count,
        task.other_account_id,
        task.match_result.party1_obligation,
        now.updated_order1->0,
        ground.before.party1.input_balance,
        now.updated_input_balance1,
        now.updated_output_balance1,
        knows_no_balances(task),
    )
}

/// What a submission must know of the updated balances to be building those of a party.
spec fn balancing_was_told(
    task: SettleInternalMatchTask,
    replies: Replies,
    count: nat,
    now: SettleInternalMatchTask,
    ground: Groundwork,
    party: PartyId,
) -> bool {
    &&& ground_was_told(task, replies, count, ground)
    &&& intents_were_told(task, replies, count, now)
    &&& knows_no_balances(task) ==> now.updated_input_balance1 is None
        && now.updated_output_balance1 is None
    &&& match party {
        PartyId::Party0 => knows_no_balances(task) ==> now.updated_input_balance0 is None
            && now.updated_output_balance0 is None,
        PartyId::Party1 => balances0_were_told(task, replies, count, now, ground),
    }
}

/// Whether the expected outcome of a match was persisted.
pub open spec fn plan_was_recorded(
    task: SettleInternalMatchTask,
    replies: Replies,
    count: nat,
    transitions: Transitions,
) -> bool {
    answered(
        task,
        replies,
        count,
        Action::PersistState {
            state: SettleInternalMatchTaskState::SubmittingTxPlanned {
                party0: transitions.party0,
                party1: transitions.party1,
            },
        },
        Reply::Done,
    )
}

/// Whether a match was submitted, with the bundles that were told.
pub open spec fn match_was_settled(
    task: SettleInternalMatchTask,
    replies: Replies,
    count: nat,
) -> bool {
    exists|bundle0: BundleHandle, bundle1: BundleHandle|
        #![trigger bundles_were_told(task, replies, count, bundle0, bundle1)]
        bundles_were_told(task, replies, count, bundle0, bundle1) && answered(
            task,
            replies,
            count,
            Action::SettleMatch { match_result: task.match_result, bundle0, bundle1 },
            Reply::Done,
        )
}

/// Whether the Merkle proofs that belong to the transitions were taken from the receipt.
pub open spec fn proofs_were_stored(
    task: SettleInternalMatchTask,
    replies: Replies,
    count: nat,
    transitions: Transitions,
) -> bool {
    answered(
        task,
        replies,
        count,
        Action::StoreReceiptProofs {
            party0: proofs_in_receipt(transitions.party0),
            party1: proofs_in_receipt(transitions.party1),
        },
        Reply::Done,
    )
}

/// What a submission must have been told to stand where it does.
spec fn was_told(
    task: SettleInternalMatchTask,
    replies: Replies,
    count: nat,
    now: SettleInternalMatchTask,
    submission: Submission,
) -> bool {
    match submission {
        Submission::Capturing { captured: None, capture } => {
            &&& capture_was_told(task, replies, count, task.account_id, task.order_id, capture)
            &&& knows_no_balances(task) ==> knows_no_balances(now)
        },
        Submission::Capturing { captured: Some(state), capture } => {
            &&& local_state_was_told(
                task,
                replies,
                count,
                task.account_id,
                task.order_id,
                state,
            )
            &&& capture_was_told(
                task,
                replies,
                count,
                task.other_account_id,
                task.other_order_id,
                capture,
            )
            &&& knows_no_balances(task) ==> knows_no_balances(now)
        },
        Submission::Bundling { before, built } => {
            &&& local_state_was_told(
                task,
                replies,
                count,
                task.account_id,
                task.order_id,
                before.party0,
            )
            &&& local_state_was_told(
                task,
                replies,
                count,
                task.other_account_id,
                task.other_order_id,
                before.party1,
            )
            &&& built matches Some(bundle) ==> bundle_was_told(
                task,
                replies,
                count,
                task.order_id,
                task.match_result.party0_obligation,
                bundle,
            )
            &&& knows_no_balances(task) ==> knows_no_balances(now)
        },
        Submission::Intending { ground, updated_order0 } => {
            &&& ground_was_told(task, replies, count, ground)
            &&& updated_order0 matches Some(order) ==> intent_was_told(
                task,
                replies,
                count,
                task.order_id,
                task.match_result.party0_obligation,
                order,
            )
            &&& knows_no_balances(task) ==> knows_no_balances(now)
        },
        Submission::Balancing { ground, party, input_balance } => {
            &&& balancing_was_told(task, replies, count, now, ground, party)
            &&& input_balance matches Some(balance) ==> match party {
                PartyId::Party0 => input_was_told(
                    task,
                    replies,
                    count,
                    task.account_id,
                    task.match_result.party0_obligation,
                    balance,
                ),
                PartyId::Party1 => input_was_told(
                    task,
                    replies,
                    count,
                    task.other_account_id,
                    task.match_result.party1_obligation,
                    balance,
                ),
            }
        },
        Submission::EoaBalancing { ground, party } => balancing_was_told(
            task,
            replies,
            count,
            now,
            ground,
            party,
        ),
        Submission::Planning { ground, transitions } => {
            &&& ground_was_told(task, replies, count, ground)
            &&& transitions_were_told(task, replies, count, transitions)
        },
        Submission::Settling { bundle0, bundle1, transitions } => {
            &&& bundles_were_told(task, replies, count, bundle0, bundle1)
            &&& transitions_were_told(task, replies, count, transitions)
            &&& plan_was_recorded(task, replies, count, transitions)
        },
        Submission::StoringProofs { transitions } => {
            &&& transitions_were_told(task, replies, count, transitions)
            &&& plan_was_recorded(task, replies, count, transitions)
            &&& match_was_settled(task, replies, count)
        },
        Submission::Ready { transitions } => {
            &&& transitions_were_told(task, replies, count, transitions)
            &&& plan_was_recorded(task, replies, count, transitions)
            &&& match_was_settled(task, replies, count)
            &&& proofs_were_stored(task, replies, count, transitions)
        },
        _ => true,
    }
}

/// What was told to a submission stays told.
proof fn lemma_stays_told(
    task: SettleInternalMatchTask,
    replies: Replies,
    count: nat,
    now: SettleInternalMatchTask,
    submission: Submission,
)
    requires
        was_told(task, replies, count, now, submission),
    ensures
        was_told(task, replies, count + 1, now, submission),
{
    lemma_answers_stay(task, replies, count);
    if match_was_settled(task, replies, count) {
        let (bundle0, bundle1) = choose|bundle0: BundleHandle, bundle1: BundleHandle|
            #![trigger bundles_were_told(task, replies, count, bundle0, bundle1)]
            bundles_were_told(task, replies, count, bundle0, bundle1) && answered(
                task,
                replies,
                count,
                Action::SettleMatch { match_result: task.match_result, bundle0, bundle1 },
                Reply::Done,
            );
        assert(bundles_were_told(task, replies, count + 1, bundle0, bundle1));
    }
}

/// Whether a task is about the same match as another one.
spec fn same_match(task: SettleInternalMatchTask, now: SettleInternalMatchTask) -> bool {
    &&& now.account_id == task.account_id
    &&& now.other_account_id == task.other_account_id
    &&& now.order_id == task.order_id
    &&& now.other_order_id == task.other_order_id
    &&& now.match_result == task.match_result
}

/// Whether a run stands at a point of a submission, and has its next call answered.
spec fn is_answered(
    task: SettleInternalMatchTask,
    replies: Replies,
    count: nat,
    now: SettleInternalMatchTask,
    submission: Submission,
) -> bool {
    &&& same_match(task, now)
    &&& submission.well_formed(now)
    &&& count < replies.len()
    &&& calls(task, replies, count, submission.next_action(now))
    &&& replies[count as int] matches Ok(reply) && submission.next_action(now).answered_by(reply)
    &&& was_told(task, replies, count, now, submission)
}

/// Whether the point that a submission comes to with its next answer is one for which it
/// was told enough.
spec fn goes_on_told(
    task: SettleInternalMatchTask,
    replies: Replies,
    count: nat,
    now: SettleInternalMatchTask,
    submission: Submission,
) -> bool {
    let (then, next) = submission.after_reply(now, replies[count as int]);
    next matches Ok(next) ==> was_told(task, replies, count + 1, then, next)
}

/// Reading a local state tells it.
proof fn lemma_capturing_tells(
    task: SettleInternalMatchTask,
    replies: Replies,
    count: nat,
    now: SettleInternalMatchTask,
    submission: Submission,
)
    requires
        is_answered(task, replies, count, now, submission),
        submission is Capturing,
    ensures
        goes_on_told(task, replies, count, now, submission),
{
    lemma_stays_told(task, replies, count, now, submission);
    lemma_last_answer(task, replies, count, submission.next_action(now));
}

/// Building the bundles and the updated orders tells them.
proof fn lemma_building_tells(
    task: SettleInternalMatchTask,
    replies: Replies,
    count: nat,
    now: SettleInternalMatchTask,
    submission: Submission,
)
    requires
        is_answered(task, replies, count, now, submission),
        submission is Bundling || (submission matches Submission::Intending {
            updated_order0: None,
            ..
        }),
    ensures
        goes_on_told(task, replies, count, now, submission),
{
    lemma_stays_told(task, replies, count, now, submission);
    lemma_last_answer(task, replies, count, submission.next_action(now));
}

/// Once the updated balances of the initiating party are told, a submission goes on told.
proof fn lemma_once_balanced_told(
    task: SettleInternalMatchTask,
    replies: Replies,
    count: nat,
    now: SettleInternalMatchTask,
    ground: Groundwork,
    party: PartyId,
)
    requires
        same_match(task, now),
        ground_was_told(task, replies, count, ground),
        intents_were_told(task, replies, count, now),
        balances0_were_told(task, replies, count, now, ground),
        match party {
            PartyId::Party0 => knows_no_balances(task) ==> now.updated_input_balance1 is None
                && now.updated_output_balance1 is None,
            PartyId::Party1 => balances1_were_told(task, replies, count, now, ground),
        },
    ensures
        Submission::once_balanced(now, ground, party) matches Ok(next) ==> was_told(
            task,
            replies,
            count,
            now,
            next,
        ),
{
    if party == PartyId::Party0 && Submission::balancing(now, ground, PartyId::Party1) is None {
        assert(balances1_were_told(task, replies, count, now, ground));
    }
}

/// The second updated order tells what the parties are left with.
proof fn lemma_intending_tells(
    task: SettleInternalMatchTask,
    replies: Replies,
    count: nat,
    now: SettleInternalMatchTask,
    submission: Submission,
)
    requires
        is_answered(task, replies, count, now, submission),
        submission matches Submission::Intending { updated_order0: Some(_), .. },
    ensures
        goes_on_told(task, replies, count, now, submission),
{
    lemma_stays_told(task, replies, count, now, submission);
    lemma_last_answer(task, replies, count, submission.next_action(now));
    let (then, next) = submission.after_reply(now, replies[count as int]);
    let ground = submission->Intending_ground;
    if Submission::balancing(then, ground, PartyId::Party0) is None {
        assert(balances0_were_told(task, replies, count + 1, then, ground));
        lemma_once_balanced_told(task, replies, count + 1, then, ground, PartyId::Party0);
    }
}

/// Building the updated balances tells them.
proof fn lemma_balancing_tells(
    task: SettleInternalMatchTask,
    replies: Replies,
    count: nat,
    now: SettleInternalMatchTask,
    submission: Submission,
)
    requires
        is_answered(task, replies, count, now, submission),
        submission is Balancing,
    ensures
        goes_on_told(task, replies, count, now, submission),
{
    lemma_stays_told(task, replies, count, now, submission);
    lemma_last_answer(task, replies, count, submission.next_action(now));
    let (then, next) = submission.after_reply(now, replies[count as int]);
    if let Submission::Balancing { ground, party, input_balance } = submission {
        if input_balance is Some {
            match party {
                PartyId::Party0 => {
                    assert(balances0_were_told(task, replies, count + 1, then, ground));
                },
                PartyId::Party1 => {
                    assert(balances0_were_told(task, replies, count + 1, then, ground));
                    assert(balances1_were_told(task, replies, count + 1, then, ground));
                },
            }
            lemma_once_balanced_told(task, replies, count + 1, then, ground, party);
        }
    }
}

/// Building the updated balance of an EOA tells it.
proof fn lemma_eoa_balancing_tells(
    task: SettleInternalMatchTask,
    replies: Replies,
    count: nat,
    now: SettleInternalMatchTask,
    submission: Submission,
)
    requires
        is_answered(task, replies, count, now, submission),
        submission is EoaBalancing,
    ensures
        goes_on_told(task, replies, count, now, submission),
{
    lemma_stays_told(task, replies, count, now, submission);
    lemma_last_answer(task, replies, count, submission.next_action(now));
    let (then, next) = submission.after_reply(now, replies[count as int]);
    if let Submission::EoaBalancing { ground, party } = submission {
        match party {
            PartyId::Party0 => {
                assert(balances0_were_told(task, replies, count + 1, then, ground));
            },
            PartyId::Party1 => {
                assert(balances0_were_told(task, replies, count + 1, then, ground));
                assert(balances1_were_told(task, replies, count + 1, then, ground));
            },
        }
        lemma_once_balanced_told(task, replies, count + 1, then, ground, party);
    }
}

/// Persisting, submitting and storing proofs is told by their success.
proof fn lemma_settling_tells(
    task: SettleInternalMatchTask,
    replies: Replies,
    count: nat,
    now: SettleInternalMatchTask,
    submission: Submission,
)
    requires
        is_answered(task, replies, count, now, submission),
        submission is Planning || submission is Settling || submission is StoringProofs,
    ensures
        goes_on_told(task, replies, count, now, submission),
{
    lemma_stays_told(task, replies, count, now, submission);
    lemma_last_answer(task, replies, count, submission.next_action(now));
    assert(replies[count as int] == Ok::<Reply, SettleInternalMatchTaskError>(Reply::Done));
    match submission {
        Submission::Settling { bundle0, bundle1, .. } => {
            assert(bundles_were_told(task, replies, count + 1, bundle0, bundle1));
            assert(match_was_settled(task, replies, count + 1));
        },
        Submission::StoringProofs { transitions } => {
            assert(now.receipt_proofs_of(PartyId::Party0) == proofs_in_receipt(
                transitions.party0,
            ));
            assert(now.receipt_proofs_of(PartyId::Party1) == proofs_in_receipt(
                transitions.party1,
            ));
        },
        _ => {},
    }
}

/// Wherever a submission stands, it was told what it takes to stand there.
proof fn lemma_run_was_told(task: SettleInternalMatchTask, replies: Replies, count: nat)
    requires
        task.task_state is SubmittingTx,
        reached(task, replies, count) is Some,
    ensures
        ({
            let (now, submission) = reached(task, replies, count)->0;
            was_told(task, replies, count, now, submission)
        }),
    decreases count,
{
    if count == 0 {
        lemma_no_reply(task, replies);
    } else {
        let last = (count - 1) as nat;
        let (now, submission) = lemma_last_reply(task, replies, count);
        lemma_run_was_told(task, replies, last);
        law_run_keeps_invariant(task, replies, last);
        match submission {
            Submission::Capturing { .. } => {
                lemma_capturing_tells(task, replies, last, now, submission);
            },
            Submission::Bundling { .. } | Submission::Intending { updated_order0: None, .. } => {
                lemma_building_tells(task, replies, last, now, submission);
            },
            Submission::Intending { .. } => {
                lemma_intending_tells(task, replies, last, now, submission);
            },
            Submission::Balancing { .. } => {
                lemma_balancing_tells(task, replies, last, now, submission);
            },
            Submission::EoaBalancing { .. } => {
                lemma_eoa_balancing_tells(task, replies, last, now, submission);
            },
            _ => {
                lemma_settling_tells(task, replies, last, now, submission);
            },
        }
    }
}

/// A submission ends with exactly what it was told, and only after all of it was asked:
/// - what the transition of a party starts from is what was read of the party's own order
///   and account;
/// - the order that it leads to was built from the party's own order and obligation;
/// - the balances that it leads to were built for the party's own account, from its own
///   obligation and updated order;
/// - these transitions were persisted;
/// - the match was submitted, with the bundles that were built for the two parties, in
///   their order;
/// - the Merkle proofs of exactly the updated orders and darkpool balances were taken from
///   the receipt.
pub proof fn law_submission_ends_with_what_it_was_told(
    task: SettleInternalMatchTask,
    replies: Replies,
    count: nat,
    now: SettleInternalMatchTask,
    transitions: Transitions,
)
    requires
        task.task_state is SubmittingTx,
        reached(task, replies, count) == Some((now, Submission::Ready { transitions })),
    ensures
        transitions_were_told(task, replies, count, transitions),
        plan_was_recorded(task, replies, count, transitions),
        match_was_settled(task, replies, count),
        proofs_were_stored(task, replies, count, transitions),
{
    lemma_run_was_told(task, replies, count);
}

/// Whether a balance is one that is read of a party: in the input token of an order that
/// was read under the party's own identifier or, in the darkpool, in its output token.
pub open spec fn balance_is_read_of(
    task: SettleInternalMatchTask,
    replies: Replies,
    count: nat,
    order_id: OrderId,
    token: TokenAddress,
    location: BalanceLocation,
) -> bool {
    exists|order: Order| #[trigger]
        order_was_read(task, replies, count, order_id, order) && location == location_of(order)
            && (token == order.input_token || (token == order.output_token && location
            == BalanceLocation::Darkpool))
}

/// Every call of a submission is about one party of the match, and goes by that party's
/// own order, account and obligation, and by what was told of that party before. The match
/// is submitted only once the transitions that are expected of it were told and persisted,
/// and Merkle proofs are taken from the receipt only once it was submitted. No other call
/// is made.
pub proof fn law_submission_calls_go_by_their_party(
    task: SettleInternalMatchTask,
    replies: Replies,
    index: nat,
    action: Action,
)
    requires
        task.task_state is SubmittingTx,
        calls(task, replies, index, action),
    ensures
        match action {
            Action::ReadOrder { order_id } => order_id == task.order_id || order_id
                == task.other_order_id,
            Action::ReadBalance { account_id, token, location } => {
                ||| account_id == task.account_id && balance_is_read_of(
                    task,
                    replies,
                    index,
                    task.order_id,
                    token,
                    location,
                )
                ||| account_id == task.other_account_id && balance_is_read_of(
                    task,
                    replies,
                    index,
                    task.other_order_id,
                    token,
                    location,
                )
            },
            Action::BuildBundle { order_id, obligation }
            | Action::BuildUpdatedIntent { order_id, obligation } => {
                ||| order_id == task.order_id && obligation == task.match_result.party0_obligation
                ||| order_id == task.other_order_id && obligation
                    == task.match_result.party1_obligation
            },
            Action::BuildInputBalance { account_id, obligation } => {
                ||| account_id == task.account_id && obligation
                    == task.match_result.party0_obligation
                ||| account_id == task.other_account_id && obligation
                    == task.match_result.party1_obligation
            },
            Action::BuildOutputBalance { account_id, order, obligation, apply_fees } => {
                &&& !apply_fees
                &&& order.ring is Ring2
                &&& {
                    ||| account_id == task.account_id && obligation
                        == task.match_result.party0_obligation && intent_was_told(
                        task,
                        replies,
                        index,
                        task.order_id,
                        obligation,
                        order,
                    )
                    ||| account_id == task.other_account_id && obligation
                        == task.match_result.party1_obligation && intent_was_told(
                        task,
                        replies,
                        index,
                        task.other_order_id,
                        obligation,
                        order,
                    )
                }
            },
            Action::BuildEoaBalance { account_id, order, obligation, .. } => {
                &&& location_of(order) == BalanceLocation::EOA
                &&& {
                    ||| account_id == task.account_id && obligation
                        == task.match_result.party0_obligation && intent_was_told(
                        task,
                        replies,
                        index,
                        task.order_id,
                        obligation,
                        order,
                    )
                    ||| account_id == task.other_account_id && obligation
                        == task.match_result.party1_obligation && intent_was_told(
                        task,
                        replies,
                        index,
                        task.other_order_id,
                        obligation,
                        order,
                    )
                }
            },
            Action::PersistState { state } => {
                &&& state matches SettleInternalMatchTaskState::SubmittingTxPlanned {
                    party0,
                    party1,
                }
                &&& transitions_were_told(task, replies, index, Transitions { party0, party1 })
            },
            Action::SettleMatch { match_result, bundle0, bundle1 } => {
                &&& match_result == task.match_result
                &&& bundles_were_told(task, replies, index, bundle0, bundle1)
                &&& exists|transitions: Transitions| #[trigger]
                    transitions_were_told(task, replies, index, transitions)
                        && plan_was_recorded(task, replies, index, transitions)
            },
            Action::StoreReceiptProofs { party0, party1 } => {
                &&& match_was_settled(task, replies, index)
                &&& exists|transitions: Transitions| #[trigger]
                    transitions_were_told(task, replies, index, transitions)
                        && plan_was_recorded(task, replies, index, transitions) && party0
                        == proofs_in_receipt(transitions.party0) && party1 == proofs_in_receipt(
                        transitions.party1,
                    )
            },
            _ => false,
        },
{
    lemma_run_was_told(task, replies, index);
    law_run_keeps_invariant(task, replies, index);
    let (now, submission) = reached(task, replies, index)->0;
    match submission {
        Submission::Settling { transitions, .. } => {
            assert(transitions_were_told(task, replies, index, transitions));
        },
        Submission::StoringProofs { transitions } => {
            assert(transitions_were_told(task, replies, index, transitions));
            assert(now.receipt_proofs_of(PartyId::Party0) == proofs_in_receipt(
                transitions.party0,
            ));
            assert(now.receipt_proofs_of(PartyId::Party1) == proofs_in_receipt(
                transitions.party1,
            ));
        },
        Submission::Capturing { captured, capture } => {
            let order_id = if captured is Some {
                task.other_order_id
            } else {
                task.order_id
            };
            match capture {
                Capture::InputBalance { order } | Capture::OutputBalance { order, .. } => {
                    assert(order_was_read(task, replies, index, order_id, order));
                },
                _ => {},
            }
        },
        _ => {},
    }
}

/// A failed call ends the on-chain leg with the failure of that call, and leaves the task
/// as it was. A failed lookup alone does not: it says that a commitment was not found.
pub proof fn law_failed_call_ends_the_leg(
    task: SettleInternalMatchTask,
    replies: Replies,
    index: nat,
    action: Action,
    error: SettleInternalMatchTaskError,
)
    requires
        at_first_leg(task),
        calls(task, replies, index, action),
        !(action is FindCommitment),
    ensures
        ({
            let (now, submission) = reached(task, replies, index)->0;
            let (then, next) = submission.after_reply(now, Err(error));
            then == now && next == Err::<Submission, SettleInternalMatchTaskErrorView>(error@)
        }),
{
    law_run_keeps_invariant(task, replies, index);
}

/// Whether the Merkle proofs of a party were rebuilt from chain: that of the updated order,
/// unless the order is fully public, and, for one of the second ring, those of the balances
/// after the settlement, both of them.
pub open spec fn proofs_were_rebuilt(
    task: SettleInternalMatchTask,
    replies: Replies,
    count: nat,
    transition: PartyStateTransition,
) -> bool {
    &&& !(transition.order_after.ring is Ring0) ==> answered(
        task,
        replies,
        count,
        Action::SyncIntentProof {
            order_id: transition.order_after.id,
            commitment: transition.order_after.commitment,
        },
        Reply::Done,
    )
    &&& transition.order_after.ring is Ring2 ==> {
        &&& transition.input_balance_after matches Some(balance) && answered(
            task,
            replies,
            count,
            Action::SyncBalanceProof {
                account_id: transition.account_id,
                mint: balance.mint,
                commitment: balance.commitment,
            },
            Reply::Done,
        )
        &&& transition.output_balance_after matches Some(balance) && answered(
            task,
            replies,
            count,
            Action::SyncBalanceProof {
                account_id: transition.account_id,
                mint: balance.mint,
                commitment: balance.commitment,
            },
            Reply::Done,
        )
    }
}

/// Whether the first calls of the plan to rebuild the Merkle proofs were made.
spec fn plan_was_followed(
    task: SettleInternalMatchTask,
    replies: Replies,
    count: nat,
    transitions: Transitions,
    done: int,
) -> bool {
    forall|i: int|
        0 <= i < done ==> answered(
            task,
            replies,
            count,
            #[trigger] full_sync_plan(transitions)[i],
            Reply::Done,
        )
}

/// What a recovery must have rebuilt to stand where it does.
spec fn has_rebuilt(
    task: SettleInternalMatchTask,
    replies: Replies,
    count: nat,
    submission: Submission,
) -> bool {
    match submission {
        Submission::Syncing { transitions, done } => plan_was_followed(
            task,
            replies,
            count,
            transitions,
            done as int,
        ),
        Submission::Ready { transitions } => {
            &&& plan_was_followed(
                task,
                replies,
                count,
                transitions,
                full_sync_plan(transitions).len() as int,
            )
            &&& transitions.party0.order_after.ring is Ring2
                ==> transitions.party0.input_balance_after is Some
                && transitions.party0.output_balance_after is Some
            &&& transitions.party1.order_after.ring is Ring2
                ==> transitions.party1.input_balance_after is Some
                && transitions.party1.output_balance_after is Some
        },
        _ => true,
    }
}

/// Wherever a recovery stands, it has rebuilt what it takes to stand there.
proof fn lemma_run_has_rebuilt(task: SettleInternalMatchTask, replies: Replies, count: nat)
    requires
        task.task_state is SubmittingTxPlanned,
        reached(task, replies, count) is Some,
    ensures
        ({
            let (now, submission) = reached(task, replies, count)->0;
            has_rebuilt(task, replies, count, submission)
        }),
    decreases count,
{
    if count == 0 {
        lemma_no_reply(task, replies);
    } else {
        let last = (count - 1) as nat;
        let (now, submission) = lemma_last_reply(task, replies, count);
        lemma_run_has_rebuilt(task, replies, last);
        law_run_keeps_invariant(task, replies, last);
        lemma_answers_stay(task, replies, last);
        lemma_last_answer(task, replies, last, submission.next_action(now));
        if let Submission::Syncing { transitions, done } = submission {
            let plan = full_sync_plan(transitions);
            lemma_plan_is_for_proofs(transitions.party0);
            lemma_plan_is_for_proofs(transitions.party1);
            assert(plan[done as int] is SyncIntentProof || plan[done as int] is SyncBalanceProof) by {
                let plan0 = sync_plan(transitions.party0);
                let plan1 = sync_plan(transitions.party1);
                if done < plan0.len() {
                    assert(plan[done as int] == plan0[done as int]);
                } else {
                    assert(plan[done as int] == plan1[done - plan0.len()]);
                }
            }
            assert(answered(task, replies, count, plan[done as int], Reply::Done));
            assert forall|i: int| 0 <= i < done + 1 implies answered(
                task,
                replies,
                count,
                #[trigger] plan[i],
                Reply::Done,
            ) by {
                if i < done {
                    assert(answered(task, replies, last, plan[i], Reply::Done));
                }
            }
        }
    }
}

/// The calls that rebuild the Merkle proofs of a party are all of that kind.
proof fn lemma_plan_is_for_proofs(transition: PartyStateTransition)
    ensures
        forall|i: int|
            0 <= i < sync_plan(transition).len() ==> (#[trigger] sync_plan(
                transition,
            )[i] is SyncIntentProof || sync_plan(transition)[i] is SyncBalanceProof),
{
}

/// Where the calls of a plan were made, they include those for each proof of a party.
proof fn lemma_plan_rebuilds(
    task: SettleInternalMatchTask,
    replies: Replies,
    count: nat,
    transition: PartyStateTransition,
)
    requires
        transition.order_after.ring is Ring2 ==> transition.input_balance_after is Some
            && transition.output_balance_after is Some,
        forall|i: int|
            0 <= i < sync_plan(transition).len() ==> answered(
                task,
                replies,
                count,
                #[trigger] sync_plan(transition)[i],
                Reply::Done,
            ),
    ensures
        proofs_were_rebuilt(task, replies, count, transition),
{
    let plan = sync_plan(transition);
    let order = transition.order_after;
    if !(order.ring is Ring0) {
        assert(plan[0] == Action::SyncIntentProof {
            order_id: order.id,
            commitment: order.commitment,
        });
    }
    if order.ring is Ring2 {
        let input_balance = transition.input_balance_after->0;
        let output_balance = transition.output_balance_after->0;
        assert(plan[1] == Action::SyncBalanceProof {
            account_id: transition.account_id,
            mint: input_balance.mint,
            commitment: input_balance.commitment,
        });
        assert(plan[2] == Action::SyncBalanceProof {
            account_id: transition.account_id,
            mint: output_balance.mint,
            commitment: output_balance.commitment,
        });
    }
}

/// A recovery ends only after the Merkle proofs of both parties were rebuilt from chain,
/// each of them: that of the updated order, and, in the second ring, those of the input
/// balance and of the output balance.
pub proof fn law_recovery_rebuilds_every_proof(
    task: SettleInternalMatchTask,
    replies: Replies,
    count: nat,
    now: SettleInternalMatchTask,
    transitions: Transitions,
)
    requires
        task.task_state is SubmittingTxPlanned,
        reached(task, replies, count) == Some((now, Submission::Ready { transitions })),
    ensures
        proofs_were_rebuilt(task, replies, count, transitions.party0),
        proofs_were_rebuilt(task, replies, count, transitions.party1),
{
    lemma_run_has_rebuilt(task, replies, count);
    let plan = full_sync_plan(transitions);
    let plan0 = sync_plan(transitions.party0);
    let plan1 = sync_plan(transitions.party1);
    assert forall|i: int| 0 <= i < plan0.len() implies answered(
        task,
        replies,
        count,
        #[trigger] plan0[i],
        Reply::Done,
    ) by {
        assert(plan[i] == plan0[i]);
    }
    assert forall|i: int| 0 <= i < plan1.len() implies answered(
        task,
        replies,
        count,
        #[trigger] plan1[i],
        Reply::Done,
    ) by {
        assert(plan[plan0.len() + i] == plan1[i]);
    }
    lemma_plan_rebuilds(task, replies, count, transitions.party0);
    lemma_plan_rebuilds(task, replies, count, transitions.party1);
}

/// Whether a commitment is one that a settlement makes for a party: to the updated order
/// of a private party, and, in the second ring, to either balance after the settlement.
pub open spec fn is_committed_to(transition: PartyStateTransition, commitment: Commitment) -> bool {
    ||| !(transition.order_after.ring is Ring0) && commitment == transition.order_after.commitment
    ||| transition.order_after.ring is Ring2 && (transition.input_balance_after matches Some(
        balance,
    ) && commitment == balance.commitment)
    ||| transition.order_after.ring is Ring2 && (transition.output_balance_after matches Some(
        balance,
    ) && commitment == balance.commitment)
}

/// Whether a call rebuilds a Merkle proof of a party.
pub open spec fn rebuilds_proof_of(transition: PartyStateTransition, action: Action) -> bool {
    match action {
        Action::SyncIntentProof { order_id, commitment } => {
            &&& !(transition.order_after.ring is Ring0)
            &&& order_id == transition.order_after.id
            &&& commitment == transition.order_after.commitment
        },
        Action::SyncBalanceProof { account_id, mint, commitment } => {
            &&& transition.order_after.ring is Ring2
            &&& account_id == transition.account_id
            &&& {
                ||| transition.input_balance_after matches Some(balance) && mint == balance.mint
                    && commitment == balance.commitment
                ||| transition.output_balance_after matches Some(balance) && mint == balance.mint
                    && commitment == balance.commitment
            }
        },
        _ => false,
    }
}

/// The calls that rebuild the Merkle proofs of a party are for that party's proofs.
proof fn lemma_plan_is_for_party(transition: PartyStateTransition, i: int)
    requires
        transition.order_after.ring is Ring2 ==> transition.input_balance_after is Some
            && transition.output_balance_after is Some,
        0 <= i < sync_plan(transition).len(),
    ensures
        rebuilds_proof_of(transition, sync_plan(transition)[i]),
{
}

/// A recovery looks up only what the persisted transitions commit to, and rebuilds only
/// the Merkle proofs of what they lead to.
pub proof fn law_recovery_calls_go_by_the_plan(
    task: SettleInternalMatchTask,
    replies: Replies,
    index: nat,
    action: Action,
    party0: PartyStateTransition,
    party1: PartyStateTransition,
)
    requires
        task.task_state == (SettleInternalMatchTaskState::SubmittingTxPlanned { party0, party1 }),
        calls(task, replies, index, action),
    ensures
        match action {
            Action::FindCommitment { commitment } => is_committed_to(party0, commitment)
                || is_committed_to(party1, commitment),
            _ => rebuilds_proof_of(party0, action) || rebuilds_proof_of(party1, action),
        },
{
    law_run_keeps_invariant(task, replies, index);
    let (now, submission) = reached(task, replies, index)->0;
    if let Submission::Syncing { transitions, done } = submission {
        let plan = full_sync_plan(transitions);
        let plan0 = sync_plan(party0);
        let plan1 = sync_plan(party1);
        if done < plan0.len() {
            assert(plan[done as int] == plan0[done as int]);
            lemma_plan_is_for_party(party0, done as int);
        } else {
            assert(plan[done as int] == plan1[done - plan0.len()]);
            lemma_plan_is_for_party(party1, done - plan0.len());
        }
    }
}

/// How many calls it takes to read the local state around an order.
pub open spec fn reads_for(order: Order) -> int {
    if location_of(order) == BalanceLocation::EOA {
        2
    } else {
        3
    }
}

/// How many calls it takes to have the balances built that an obligation leaves for an
/// updated order.
pub open spec fn balances_to_build(order: Order, input_before: Option<Balance>) -> int {
    if order.ring is Ring2 {
        2
    } else if location_of(order) == BalanceLocation::EOA && input_before is Some {
        1
    } else {
        0
    }
}

/// How many calls it takes to come to the transitions of both parties.
pub open spec fn calls_for(transitions: Transitions) -> int {
    reads_for(transitions.party0.order_before) + reads_for(transitions.party1.order_before) + 4
        + balances_to_build(
        transitions.party0.order_after,
        transitions.party0.input_balance_before,
    ) + balances_to_build(transitions.party1.order_after, transitions.party1.input_balance_before)
}

/// How many calls a capture has made.
spec fn reads_made(capture: Capture) -> int {
    match capture {
        Capture::Order => 0,
        Capture::InputBalance { .. } => 1,
        Capture::OutputBalance { .. } => 2,
        Capture::Captured { state } => reads_for(state.order),
    }
}

/// How many calls a submission has made before it builds the balances of a party.
spec fn calls_before_balances(
    now: SettleInternalMatchTask,
    ground: Groundwork,
    party: PartyId,
) -> int {
    reads_for(ground.before.party0.order) + reads_for(ground.before.party1.order) + 4 + (
    if party is Party1 {
        balances_to_build(now.updated_order0->0, ground.before.party0.input_balance)
    } else {
        0
    })
}

/// How many calls a submission has made where it stands.
spec fn calls_made(now: SettleInternalMatchTask, submission: Submission) -> int {
    match submission {
        Submission::Capturing { captured, capture } => match captured {
            Some(state) => reads_for(state.order) + reads_made(capture),
            None => reads_made(capture),
        },
        Submission::Bundling { before, built } => reads_for(before.party0.order) + reads_for(
            before.party1.order,
        ) + (if built is Some {
            1int
        } else {
            0int
        }),
        Submission::Intending { ground, updated_order0 } => reads_for(ground.before.party0.order)
            + reads_for(ground.before.party1.order) + 2 + (if updated_order0 is Some {
            1int
        } else {
            0int
        }),
        Submission::Balancing { ground, party, input_balance } => calls_before_balances(
            now,
            ground,
            party,
        ) + (if input_balance is Some {
            1int
        } else {
            0int
        }),
        Submission::EoaBalancing { ground, party } => calls_before_balances(now, ground, party),
        Submission::Planning { transitions, .. } => calls_for(transitions),
        Submission::Settling { transitions, .. } => calls_for(transitions) + 1,
        Submission::StoringProofs { transitions } => calls_for(transitions) + 2,
        Submission::Ready { transitions } => calls_for(transitions) + 3,
        _ => 0,
    }
}

/// Once the updated balances of a party are known, a submission has made the calls for
/// them.
proof fn lemma_once_balanced_counts(
    now: SettleInternalMatchTask,
    ground: Groundwork,
    party: PartyId,
)
    requires
        now.updated_order0 is Some,
        now.updated_order1 is Some,
    ensures
        Submission::once_balanced(now, ground, party) matches Ok(next) ==> calls_made(now, next)
            == calls_before_balances(now, ground, PartyId::Party1) + (if party is Party1 {
            balances_to_build(now.updated_order1->0, ground.before.party1.input_balance)
        } else {
            0
        }),
{
    match transitions_of(now, ground.before) {
        Ok(transitions) => {
            assert(transitions.party0.order_after == now.updated_order0->0);
            assert(transitions.party1.order_after == now.updated_order1->0);
        },
        Err(_) => {},
    }
}

/// Reading and building take a submission one call further with every answer.
proof fn lemma_early_answer_counts(
    now: SettleInternalMatchTask,
    submission: Submission,
    reply: Reply,
)
    requires
        submission.well_formed(now),
        submission is Capturing || submission is Bundling,
        submission.next_action(now).answered_by(reply),
    ensures
        ({
            let (then, next) = submission.after_reply(now, Ok(reply));
            next matches Ok(next) ==> calls_made(then, next) == calls_made(now, submission) + 1
        }),
{
}

/// Building what a settlement leaves takes a submission one call further with every
/// answer.
proof fn lemma_middle_answer_counts(
    now: SettleInternalMatchTask,
    submission: Submission,
    reply: Reply,
)
    requires
        submission.well_formed(now),
        submission is Intending || submission is Balancing || submission is EoaBalancing,
        submission.next_action(now).answered_by(reply),
    ensures
        ({
            let (then, next) = submission.after_reply(now, Ok(reply));
            next matches Ok(next) ==> calls_made(then, next) == calls_made(now, submission) + 1
        }),
{
    let (then, next) = submission.after_reply(now, Ok(reply));
    match submission {
        Submission::Intending { ground, updated_order0 } => {
            if updated_order0 is Some {
                if Submission::balancing(then, ground, PartyId::Party0) is None {
                    assert(next == Submission::once_balanced(then, ground, PartyId::Party0));
                    lemma_once_balanced_counts(then, ground, PartyId::Party0);
                }
            }
        },
        Submission::Balancing { ground, party, input_balance } => {
            if input_balance is Some {
                assert(next == Submission::once_balanced(then, ground, party));
                lemma_once_balanced_counts(then, ground, party);
            }
        },
        Submission::EoaBalancing { ground, party } => {
            assert(next == Submission::once_balanced(then, ground, party));
            lemma_once_balanced_counts(then, ground, party);
        },
        _ => {},
    }
}

/// Persisting, submitting and storing proofs take a submission one call further.
proof fn lemma_late_answer_counts(
    now: SettleInternalMatchTask,
    submission: Submission,
    reply: Reply,
)
    requires
        submission.well_formed(now),
        submission is Planning || submission is Settling || submission is StoringProofs,
        submission.next_action(now).answered_by(reply),
    ensures
        ({
            let (then, next) = submission.after_reply(now, Ok(reply));
            next matches Ok(next) ==> calls_made(then, next) == calls_made(now, submission) + 1
        }),
{
}

/// Wherever a submission stands, it has made as many calls as that takes.
proof fn lemma_calls_made(task: SettleInternalMatchTask, replies: Replies, count: nat)
    requires
        task.task_state is SubmittingTx,
        reached(task, replies, count) is Some,
    ensures
        ({
            let (now, submission) = reached(task, replies, count)->0;
            count == calls_made(now, submission)
        }),
    decreases count,
{
    if count == 0 {
        lemma_no_reply(task, replies);
    } else {
        let (now, submission) = lemma_last_reply(task, replies, count);
        lemma_calls_made(task, replies, (count - 1) as nat);
        law_run_keeps_invariant(task, replies, (count - 1) as nat);
        let reply = replies[count - 1]->Ok_0;
        match submission {
            Submission::Capturing { .. } | Submission::Bundling { .. } => {
                lemma_early_answer_counts(now, submission, reply);
            },
            Submission::Intending { .. }
            | Submission::Balancing { .. }
            | Submission::EoaBalancing { .. } => {
                lemma_middle_answer_counts(now, submission, reply);
            },
            _ => {
                lemma_late_answer_counts(now, submission, reply);
            },
        }
    }
}

/// A submission makes no call too many: it reads each local state once, has each bundle,
/// each updated order and each updated balance built once, and persists, submits and
/// stores once.
pub proof fn law_submission_makes_no_call_too_many(
    task: SettleInternalMatchTask,
    replies: Replies,
    count: nat,
    now: SettleInternalMatchTask,
    transitions: Transitions,
)
    requires
        task.task_state is SubmittingTx,
        reached(task, replies, count) == Some((now, Submission::Ready { transitions })),
    ensures
        count == calls_for(transitions) + 3,
{
    lemma_calls_made(task, replies, count);
}

} // verus!
