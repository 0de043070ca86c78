//! What holds of the local leg of a settlement, and of its way through the task queue.
use vstd::prelude::*;

use crate::account::{BalanceLocation, PrivacyRing};
use crate::resumption::{resumption_of, ResumptionView};
use crate::settlement::capture::{is_local_state_of, Capture};
use crate::settlement::error::{
    not_finalized, unexpected_local_state, SettleInternalMatchTaskError,
    SettleInternalMatchTaskErrorView,
};
use crate::settlement::laws::{
    foresees_writes, knows_no_balance, law_submission_foresees_writes,
    law_submission_starts_from_local_states, reached, Replies,
};
use crate::settlement::party::{PartyId, PartyLocalState, PartyStateTransition};
use crate::settlement::service::{Action, Reply};
use crate::settlement::state::{SettleInternalMatchTaskState, SettleInternalMatchTaskStateView};
use crate::settlement::step::StepWork;
use crate::settlement::submission::{
    starts_from_state, state_before, Submission, Transitions,
};
use crate::settlement::task::SettleInternalMatchTask;
use crate::settlement::update::{progress_of, LocalProgress, PartyUpdate};
use crate::task_state::{
    decoded_state, records, DecodeFailure, QueuedTaskStateView, TaskStateView, TaskStates,
};
use crate::traits::Task;

verus! {

/// The replies with which the local leg of a party reads a local state.
pub open spec fn replies_of(state: PartyLocalState) -> Replies {
    let reads: Replies = seq![
        Ok(Reply::Order(state.order)),
        Ok(Reply::StoredBalance(state.input_balance)),
    ];
    if state.order.ring.spec_balance_location() == BalanceLocation::EOA {
        reads
    } else {
        reads.push(Ok(Reply::StoredBalance(state.output_balance)))
    }
}

/// Where the local leg of a party stands after the first `count` replies, as long as
/// it has neither failed nor ended before, and every reply answers its call; or the
/// error with which the last of these replies has ended it.
pub open spec fn update_reached(
    task: SettleInternalMatchTask,
    party: PartyId,
    transition: PartyStateTransition,
    replies: Replies,
    count: nat,
) -> Option<Result<PartyUpdate, SettleInternalMatchTaskErrorView>>
    decreases count,
{
    if count == 0 {
        Some(Ok(PartyUpdate::Capturing { transition, capture: Capture::Order }))
    } else if count > replies.len() {
        None
    } else {
        let reply = replies[count - 1];
        match update_reached(task, party, transition, replies, (count - 1) as nat) {
            Some(Ok(update)) => if update is Applied || (reply is Ok && !update.next_action(
                task,
                party,
            ).answered_by(reply->Ok_0)) {
                None
            } else {
                Some(update.after_reply(task, party, reply))
            },
            _ => None,
        }
    }
}

/// Whether the local leg of a party makes a call after the first `index` replies.
pub open spec fn update_calls(
    task: SettleInternalMatchTask,
    party: PartyId,
    transition: PartyStateTransition,
    replies: Replies,
    index: nat,
    action: Action,
) -> bool {
    match update_reached(task, party, transition, replies, index) {
        Some(Ok(update)) => !(update is Applied) && update.next_action(task, party) == action,
        _ => false,
    }
}

/// Whether the reply after the first `index` replies completes the local state that
/// the local leg of a party goes by.
pub open spec fn update_captures(
    task: SettleInternalMatchTask,
    party: PartyId,
    transition: PartyStateTransition,
    replies: Replies,
    index: nat,
    state: PartyLocalState,
) -> bool {
    match update_reached(task, party, transition, replies, index) {
        Some(Ok(PartyUpdate::Capturing { capture, .. })) => {
            &&& index < replies.len()
            &&& replies[index as int] is Ok
            &&& capture.after_reply(task, party, replies[index as int]->Ok_0)
                == (Capture::Captured { state })
        },
        _ => false,
    }
}

/// The local leg goes by what it reads: where the local state is already the one
/// that the transition leads to, nothing is written; where it is the one that the
/// transition starts from, the transition is applied; and any other is refused.
pub proof fn law_local_leg_outcome(
    task: SettleInternalMatchTask,
    party: PartyId,
    transition: PartyStateTransition,
    state: PartyLocalState,
)
    requires
        is_local_state_of(state, task, party),
    ensures
        update_reached(task, party, transition, replies_of(state), replies_of(state).len()) == Some(
            match progress_of(transition@, state@) {
                LocalProgress::AlreadyApplied => Ok::<
                    PartyUpdate,
                    SettleInternalMatchTaskErrorView,
                >(PartyUpdate::Applied),
                LocalProgress::NotApplied => Ok(PartyUpdate::WritingBalances { transition }),
                LocalProgress::Unexpected => Err(unexpected_local_state(transition.order_id)),
            },
        ),
{
    reveal_with_fuel(update_reached, 4);
    let replies = replies_of(state);
    assert(replies[0] == Ok::<Reply, SettleInternalMatchTaskError>(Reply::Order(state.order)));
    assert(replies[1] == Ok::<Reply, SettleInternalMatchTaskError>(
        Reply::StoredBalance(state.input_balance),
    ));
}

/// Applying a transition again is a no-op: on the local state that the transition
/// leads to, the local leg ends without a write.
pub proof fn law_reapplying_is_noop(
    task: SettleInternalMatchTask,
    party: PartyId,
    transition: PartyStateTransition,
    state: PartyLocalState,
    index: nat,
    action: Action,
)
    requires
        is_local_state_of(state, task, party),
        state@ == transition@.after(),
        update_calls(task, party, transition, replies_of(state), index, action),
    ensures
        !action.writes_local_state(),
        update_reached(task, party, transition, replies_of(state), replies_of(state).len()) == Some(
            Ok::<PartyUpdate, SettleInternalMatchTaskErrorView>(PartyUpdate::Applied),
        ),
{
    law_local_leg_outcome(task, party, transition, state);
    if action.writes_local_state() {
        let replies = replies_of(state);
        let (captured, current) = lemma_write_follows_capture(
            task,
            party,
            transition,
            replies,
            index,
            action,
        );
        reveal_with_fuel(update_reached, 4);
        assert(replies[0] == Ok::<Reply, SettleInternalMatchTaskError>(Reply::Order(state.order)));
        assert(replies[1] == Ok::<Reply, SettleInternalMatchTaskError>(
            Reply::StoredBalance(state.input_balance),
        ));
        assert(captured < 3);
    }
}

/// The local leg writes only after it has read a local state from which the
/// transition starts, and which is not the one that it leads to.
proof fn lemma_write_follows_capture(
    task: SettleInternalMatchTask,
    party: PartyId,
    transition: PartyStateTransition,
    replies: Replies,
    index: nat,
    action: Action,
) -> (capture: (nat, PartyLocalState))
    requires
        update_calls(task, party, transition, replies, index, action),
        action.writes_local_state(),
    ensures
        capture.0 < index,
        update_captures(task, party, transition, replies, capture.0, capture.1),
        progress_of(transition@, capture.1@) is NotApplied,
    decreases index,
{
    let last = (index - 1) as nat;
    lemma_update_keeps_transition(task, party, transition, replies, last);
    match update_reached(task, party, transition, replies, last)->0->Ok_0 {
        PartyUpdate::Capturing { capture, .. } => {
            match capture.after_reply(task, party, replies[last as int]->Ok_0) {
                Capture::Captured { state } => (last, state),
                _ => (0, arbitrary()),
            }
        },
        update => {
            lemma_write_follows_capture(
                task,
                party,
                transition,
                replies,
                last,
                update.next_action(task, party),
            )
        },
    }
}

/// The local leg goes by one transition, and reads before it writes.
proof fn lemma_update_keeps_transition(
    task: SettleInternalMatchTask,
    party: PartyId,
    transition: PartyStateTransition,
    replies: Replies,
    count: nat,
)
    ensures
        update_reached(task, party, transition, replies, count) matches Some(Ok(update)) ==> {
            &&& update.well_formed()
            &&& match update {
                PartyUpdate::Capturing { transition: kept, .. }
                | PartyUpdate::WritingBalances { transition: kept }
                | PartyUpdate::WritingOrder { transition: kept } => kept == transition,
                PartyUpdate::Applied => true,
            }
        },
    decreases count,
{
    if count > 0 {
        lemma_update_keeps_transition(task, party, transition, replies, (count - 1) as nat);
    }
}

/// Local state is written only over the exact local state from which the transition
/// starts: whatever the local leg writes, it has read that state before.
pub proof fn law_writes_only_from_before(
    task: SettleInternalMatchTask,
    party: PartyId,
    transition: PartyStateTransition,
    replies: Replies,
    index: nat,
    action: Action,
)
    requires
        update_calls(task, party, transition, replies, index, action),
        action.writes_local_state(),
    ensures
        exists|captured: nat, state: PartyLocalState|
            captured < index && #[trigger] update_captures(
                task,
                party,
                transition,
                replies,
                captured,
                state,
            ) && state@ == transition@.before() && state@ != transition@.after(),
{
    let (captured, state) = lemma_write_follows_capture(
        task,
        party,
        transition,
        replies,
        index,
        action,
    );
    assert(update_captures(task, party, transition, replies, captured, state));
}

/// The place of a point in the course of the local leg.
spec fn update_stage(update: PartyUpdate) -> nat {
    match update {
        PartyUpdate::Capturing { .. } => 0,
        PartyUpdate::WritingBalances { .. } => 1,
        PartyUpdate::WritingOrder { .. } => 2,
        PartyUpdate::Applied => 3,
    }
}

/// The local leg never goes back, and never writes a thing twice.
proof fn lemma_update_advances(
    task: SettleInternalMatchTask,
    party: PartyId,
    transition: PartyStateTransition,
    replies: Replies,
    early: nat,
    late: nat,
)
    requires
        early < late,
        update_reached(task, party, transition, replies, late) matches Some(Ok(_)),
    ensures
        update_reached(task, party, transition, replies, early) matches Some(Ok(update))
            && update_stage(update) <= update_stage(
            update_reached(task, party, transition, replies, late)->0->Ok_0,
        ) && (update_stage(update) > 0 ==> update_stage(update) < update_stage(
            update_reached(task, party, transition, replies, late)->0->Ok_0,
        )),
    decreases late,
{
    let last = (late - 1) as nat;
    if early < last {
        lemma_update_advances(task, party, transition, replies, early, last);
    }
}

/// The local leg writes the balances at most once, and the order at most once: the
/// transition is never applied twice.
pub proof fn law_writes_at_most_once(
    task: SettleInternalMatchTask,
    party: PartyId,
    transition: PartyStateTransition,
    replies: Replies,
    first: nat,
    second: nat,
    action1: Action,
    action2: Action,
)
    requires
        update_calls(task, party, transition, replies, first, action1),
        update_calls(task, party, transition, replies, second, action2),
        (action1 is WriteBalances && action2 is WriteBalances) || (action1 is WriteOrder
            && action2 is WriteOrder),
    ensures
        first == second,
{
    if first < second {
        lemma_update_advances(task, party, transition, replies, first, second);
    } else if second < first {
        lemma_update_advances(task, party, transition, replies, second, first);
    }
}

/// What the local leg of a party writes is what the transition leads to.
pub proof fn law_writes_what_the_transition_leads_to(
    task: SettleInternalMatchTask,
    party: PartyId,
    transition: PartyStateTransition,
    replies: Replies,
    index: nat,
    action: Action,
)
    requires
        update_calls(task, party, transition, replies, index, action),
    ensures
        action matches Action::WriteOrder { order } ==> order == transition.order_after,
        action matches Action::WriteBalances {
            account_id,
            order,
            obligation,
            balances,
            eoa_balance,
        } ==> {
            &&& account_id == task.account_of(party)
            &&& order == transition.order_after
            &&& obligation == task.obligation_of(party)
            &&& balances matches Some((input_balance, output_balance)) ==> {
                &&& transition.input_balance_after == Some(input_balance)
                &&& transition.output_balance_after == Some(output_balance)
            }
            &&& balances is None ==> transition.input_balance_after is None
                || transition.output_balance_after is None
            &&& eoa_balance == if order.ring.spec_balance_location() == BalanceLocation::EOA {
                transition.input_balance_after
            } else {
                None
            }
        },
{
    lemma_update_keeps_transition(task, party, transition, replies, index);
}

/// What a call makes of the local state of a party. Updated balances are written as they
/// are, and so is an updated EOA balance. What becomes of the balances of a party that has
/// some where none is given is left open.
pub open spec fn after_write(state: PartyLocalState, action: Action) -> PartyLocalState {
    match action {
        Action::WriteBalances { balances: Some((input_balance, output_balance)), .. } => {
            PartyLocalState {
                input_balance: Some(input_balance),
                output_balance: Some(output_balance),
                ..state
            }
        },
        Action::WriteBalances { balances: None, eoa_balance: Some(balance), .. } => {
            PartyLocalState { input_balance: Some(balance), ..state }
        },
        Action::WriteBalances { balances: None, eoa_balance: None, .. } => {
            if state.input_balance is None && state.output_balance is None {
                state
            } else {
                PartyLocalState {
                    input_balance: arbitrary(),
                    output_balance: arbitrary(),
                    ..state
                }
            }
        },
        Action::WriteOrder { order } => PartyLocalState { order, ..state },
        _ => state,
    }
}

/// The local state that the local leg of a party leaves when it applies a transition: it
/// writes the balances, and then the order.
pub open spec fn left_by_local_leg(
    task: SettleInternalMatchTask,
    party: PartyId,
    transition: PartyStateTransition,
    before: PartyLocalState,
) -> PartyLocalState {
    let balances = PartyUpdate::WritingBalances { transition }.next_action(task, party);
    let order = PartyUpdate::WritingOrder { transition }.next_action(task, party);
    after_write(after_write(before, balances), order)
}

/// On a local state from which the transition starts, and which is not the one that it leads
/// to, the local leg writes the balances and then the order, each once, and ends with
/// success.
pub proof fn law_first_local_leg_applies(
    task: SettleInternalMatchTask,
    party: PartyId,
    transition: PartyStateTransition,
    state: PartyLocalState,
)
    requires
        is_local_state_of(state, task, party),
        state@ == transition@.before(),
        state@ != transition@.after(),
    ensures
        ({
            let reads = replies_of(state);
            let replies = reads.push(Ok(Reply::Done)).push(Ok(Reply::Done));
            &&& update_calls(
                task,
                party,
                transition,
                replies,
                reads.len(),
                PartyUpdate::WritingBalances { transition }.next_action(task, party),
            )
            &&& update_calls(
                task,
                party,
                transition,
                replies,
                reads.len() + 1,
                PartyUpdate::WritingOrder { transition }.next_action(task, party),
            )
            &&& update_reached(task, party, transition, replies, replies.len()) == Some(
                Ok::<PartyUpdate, SettleInternalMatchTaskErrorView>(PartyUpdate::Applied),
            )
        }),
{
    reveal_with_fuel(update_reached, 6);
    let reads = replies_of(state);
    let replies = reads.push(Ok(Reply::Done)).push(Ok(Reply::Done));
    assert(replies[0] == Ok::<Reply, SettleInternalMatchTaskError>(Reply::Order(state.order)));
    assert(replies[1] == Ok::<Reply, SettleInternalMatchTaskError>(
        Reply::StoredBalance(state.input_balance),
    ));
    assert(replies[reads.len() as int] == Ok::<Reply, SettleInternalMatchTaskError>(Reply::Done));
    assert(replies[reads.len() as int + 1] == Ok::<Reply, SettleInternalMatchTaskError>(Reply::Done));
    assert(reads.len() == 2 || reads.len() == 3);
}

/// A settlement is applied locally once, in every ring: where the local leg has written
/// and nothing else has, a second local leg finds the transition applied, ends with
/// success, and writes nothing.
///
/// The transition is one that foresees what applying it leaves, as those with which a
/// submission ends do, and it does not take the order from the darkpool to an EOA. Of the
/// third ring, which is not settled this way, no balance may be locally managed.
pub proof fn law_second_local_leg_is_noop(
    task: SettleInternalMatchTask,
    party: PartyId,
    transition: PartyStateTransition,
    before: PartyLocalState,
)
    requires
        is_local_state_of(before, task, party),
        starts_from_state(transition, before),
        foresees_writes(transition),
        transition.order_after.ring.spec_balance_location() == BalanceLocation::EOA
            ==> transition.order_before.ring.spec_balance_location() == BalanceLocation::EOA,
        transition.order_after.ring == PrivacyRing::Ring3 ==> before.input_balance is None
            && before.output_balance is None,
    ensures
        ({
            let left = left_by_local_leg(task, party, transition, before);
            let replies = replies_of(left);
            &&& left@ == transition@.after()
            &&& update_reached(task, party, transition, replies, replies.len()) == Some(
                Ok::<PartyUpdate, SettleInternalMatchTaskErrorView>(PartyUpdate::Applied),
            )
            &&& forall|index: nat, action: Action| #[trigger]
                update_calls(task, party, transition, replies, index, action)
                    ==> !action.writes_local_state()
        }),
{
    let left = left_by_local_leg(task, party, transition, before);
    let replies = replies_of(left);
    law_local_leg_outcome(task, party, transition, left);
    assert forall|index: nat, action: Action| #[trigger]
        update_calls(task, party, transition, replies, index, action) implies !action.writes_local_state() by {
        law_reapplying_is_noop(task, party, transition, left, index, action);
    }
}

/// A match that a task made from its descriptor has submitted is applied locally once, in
/// every ring: where the local leg of a party has written and nothing else has, a second
/// local leg ends with success and writes nothing. No decrement of an EOA balance is applied
/// twice.
pub proof fn law_submitted_match_is_applied_once(
    task: SettleInternalMatchTask,
    replies: Replies,
    count: nat,
    now: SettleInternalMatchTask,
    transitions: Transitions,
    party: PartyId,
)
    requires
        task.task_state is SubmittingTx,
        knows_no_balance(task, PartyId::Party0),
        knows_no_balance(task, PartyId::Party1),
        reached(task, replies, count) == Some((now, Submission::Ready { transitions })),
        ({
            let transition = transitions.of(party);
            &&& transition.order_after.ring.spec_balance_location() == BalanceLocation::EOA
                ==> transition.order_before.ring.spec_balance_location() == BalanceLocation::EOA
            &&& transition.order_after.ring == PrivacyRing::Ring3
                ==> transition.input_balance_before is None
                && transition.output_balance_before is None
        }),
    ensures
        ({
            let transition = transitions.of(party);
            let left = left_by_local_leg(task, party, transition, state_before(transition));
            let read = replies_of(left);
            &&& update_reached(task, party, transition, read, read.len()) == Some(
                Ok::<PartyUpdate, SettleInternalMatchTaskErrorView>(PartyUpdate::Applied),
            )
            &&& forall|index: nat, action: Action| #[trigger]
                update_calls(task, party, transition, read, index, action)
                    ==> !action.writes_local_state()
        }),
{
    law_submission_foresees_writes(task, replies, count, now, transitions);
    law_submission_starts_from_local_states(task, replies, count, now, transitions);
    let transition = transitions.of(party);
    law_second_local_leg_is_noop(task, party, transition, state_before(transition));
}

/// The task commits when it starts to submit, and not before. Its transitions that
/// await consensus are the one to submission, and the last.
pub proof fn law_commits_at_submission<S: TaskStates>(state: SettleInternalMatchTaskStateView)
    ensures
        ({
            let wrapped = TaskStateView::<S>::SettleInternalMatch(state);
            &&& wrapped.committed() <==> !(state is Pending)
            &&& wrapped.is_committing() <==> state is SubmittingTx
            &&& wrapped.completed() <==> state is Completed
        }),
{
}

/// A restored task is in the persisted state, and recovers instead of submitting;
/// what it has to prove on chain and to apply locally is what was persisted.
pub proof fn law_restored_task_resumes(
    task: SettleInternalMatchTask,
    state: SettleInternalMatchTaskState,
)
    ensures
        task.spec_restored(state).task_state == state,
        task.spec_restored(state).restored_from_queue,
        state matches SettleInternalMatchTaskState::UpdatingState { party0, party1 } ==> {
            &&& task.spec_restored(state).step_work() == Ok::<
                StepWork,
                SettleInternalMatchTaskErrorView,
            >(
                StepWork::UpdateState {
                    updates: (
                        PartyUpdate::Capturing { transition: party0, capture: Capture::Order },
                        PartyUpdate::Capturing { transition: party1, capture: Capture::Order },
                    ),
                },
            )
            &&& task.spec_restored(state).updated_order0 == Some(party0.order_after)
            &&& task.spec_restored(state).updated_order1 == Some(party1.order_after)
        },
        state matches SettleInternalMatchTaskState::SubmittingTxPlanned { party0, party1 } ==> {
            &&& task.spec_restored(state).step_work() matches Ok(StepWork::Submit { submission })
                ==> submission matches Submission::Proving { transitions, .. } && transitions == (
            Transitions { party0, party1 })
            &&& task.spec_restored(state).updated_order0 == Some(party0.order_after)
            &&& task.spec_restored(state).updated_order1 == Some(party1.order_after)
        },
        state is SubmittingTx ==> task.spec_restored(state).step_work() == Err::<
            StepWork,
            SettleInternalMatchTaskErrorView,
        >(not_finalized()),
{
}

/// A committed settlement whose queue entry carries no payload is refused: it is neither
/// run again from its beginning nor taken up anywhere. Nor is one whose payload cannot be
/// read.
pub proof fn law_committed_without_payload_is_refused(queued: QueuedTaskStateView)
    ensures
        queued.committed() && queued.execution_state() is None ==> resumption_of::<
            SettleInternalMatchTaskState,
        >(queued) is Refuse,
        decoded_state::<SettleInternalMatchTaskState>(queued) is Err ==> resumption_of::<
            SettleInternalMatchTaskState,
        >(queued) is Refuse,
        resumption_of::<SettleInternalMatchTaskState>(queued) is Fresh ==> !queued.committed(),
{
}

/// What the queue records of a running settlement is taken up where the settlement has
/// committed, and begun afresh where it has not.
pub proof fn law_recorded_settlement_is_resumed<S: TaskStates>(
    state: SettleInternalMatchTaskStateView,
    queued: QueuedTaskStateView,
)
    requires
        records::<S>(queued, TaskStateView::SettleInternalMatch(state)),
    ensures
        resumption_of::<SettleInternalMatchTaskState>(queued) == if state is Pending {
            ResumptionView::<SettleInternalMatchTaskState>::Fresh
        } else {
            ResumptionView::Restore { state }
        },
{
}

/// What the queue records of a running settlement is what a restored task goes on
/// with: decoding it and restoring a task from it gives back the recorded state.
pub proof fn law_queued_state_is_restored<S: TaskStates>(
    task: SettleInternalMatchTask,
    state: SettleInternalMatchTaskState,
    queued: QueuedTaskStateView,
    decoded: SettleInternalMatchTaskState,
)
    requires
        records::<S>(queued, TaskStateView::SettleInternalMatch(state@)),
        decoded_state::<SettleInternalMatchTaskState>(queued) == Ok::<
            Option<SettleInternalMatchTaskStateView>,
            DecodeFailure,
        >(Some(decoded@)),
    ensures
        task.spec_restored(decoded).task_state@ == state@,
        queued->committed <==> !(state is Pending),
{
}

} // verus!
