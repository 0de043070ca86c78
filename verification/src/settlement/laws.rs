//! What holds of the on-chain leg of a settlement.
use vstd::prelude::*;

use crate::account::{BalanceLocation, Commitment, PrivacyRing};
use crate::settlement::capture::{is_local_state_of, Capture};
use crate::settlement::error::{
    not_finalized, SettleInternalMatchTaskError, SettleInternalMatchTaskErrorView,
};
use crate::settlement::party::{PartyId, PartyLocalState, PartyStateTransition};
use crate::settlement::service::{Action, BundleHandle, ReceiptProofs, Reply};
use crate::settlement::state::SettleInternalMatchTaskState;
use crate::settlement::submission::{
    first_leg_after, first_leg_start, full_sync_plan, has_committed_balances, lookup_action,
    state_before, sync_plan, transitions_of, BeforeStates, FirstLeg, Groundwork, Lookup, Submission,
    Transitions,
};
use crate::settlement::task::SettleInternalMatchTask;
use crate::settlement::transcript::proofs_in_receipt;

verus! {

/// The replies of the services to the calls of a run, in order.
pub type Replies = Seq<Result<Reply, SettleInternalMatchTaskError>>;

/// Whether a task is at its on-chain leg.
pub open spec fn at_first_leg(task: SettleInternalMatchTask) -> bool {
    task.task_state is SubmittingTx || task.task_state is SubmittingTxPlanned
}

/// Where the on-chain leg of a task stands after the first `count` replies, as long
/// as it has neither failed nor ended before, and every reply answers its call.
#[verifier::opaque]
pub open spec fn reached(
    task: SettleInternalMatchTask,
    replies: Replies,
    count: nat,
) -> Option<(SettleInternalMatchTask, Submission)>
    decreases count,
{
    if count == 0 {
        match Submission::begin(task) {
            Ok(submission) => Some((task, submission)),
            Err(_) => None,
        }
    } else if count > replies.len() {
        None
    } else {
        let reply = replies[count - 1];
        match reached(task, replies, (count - 1) as nat) {
            Some((task, submission)) => if submission is Ready || (reply is Ok
                && !submission.next_action(task).answered_by(reply->Ok_0)) {
                None
            } else {
                match submission.after_reply(task, reply) {
                    (task, Ok(submission)) => Some((task, submission)),
                    _ => None,
                }
            },
            None => None,
        }
    }
}

/// The point at which the on-chain leg of a task stands after the first `count`
/// replies.
spec fn point(task: SettleInternalMatchTask, replies: Replies, count: nat) -> Submission {
    let (_, submission) = reached(task, replies, count)->0;
    submission
}

/// Whether the on-chain leg of a task makes a call after the first `index` replies.
pub open spec fn calls(
    task: SettleInternalMatchTask,
    replies: Replies,
    index: nat,
    action: Action,
) -> bool {
    match reached(task, replies, index) {
        Some((task, submission)) => !(submission is Ready) && submission.next_action(task)
            == action,
        None => false,
    }
}

/// The commitments that the lookups among the first `count` calls of a run have found
/// on chain.
pub open spec fn found_on_chain(
    task: SettleInternalMatchTask,
    replies: Replies,
    count: nat,
) -> Set<Commitment> {
    Set::new(
        |commitment: Commitment|
            exists|index: nat|
                index < count && index < replies.len() && replies[index as int] is Ok
                    && #[trigger] calls(
                    task,
                    replies,
                    index,
                    Action::FindCommitment { commitment },
                ),
    )
}

/// Whether a chain holds all that a settlement commits to for a party. There is
/// nothing that it could hold of a fully public order.
pub open spec fn committed_on_chain(
    transition: PartyStateTransition,
    chain: Set<Commitment>,
) -> bool {
    &&& transition.order_after.ring != PrivacyRing::Ring0
    &&& chain.contains(transition.order_after.commitment)
    &&& transition.order_after.ring == PrivacyRing::Ring2 ==> {
        &&& chain.contains(transition.input_balance_after->0.commitment)
        &&& chain.contains(transition.output_balance_after->0.commitment)
    }
}

/// What the lookups of a recovery must have found for it to stand where it does.
spec fn has_proven(submission: Submission, found: Set<Commitment>) -> bool {
    match submission {
        Submission::Proving { transitions, party, lookup } => {
            let transition = transitions.of(party);
            &&& party == PartyId::Party1 ==> committed_on_chain(transitions.party0, found)
            &&& !(lookup is Order) ==> found.contains(transition.order_after.commitment)
            &&& lookup == (Lookup::OutputBalance { input_found: true }) ==> found.contains(
                transition.input_balance_after->0.commitment,
            )
        },
        Submission::Syncing { transitions, .. } | Submission::Ready { transitions } => {
            committed_on_chain(transitions.party0, found) && committed_on_chain(
                transitions.party1,
                found,
            )
        },
        _ => false,
    }
}

/// A reply to a recovery adds what it takes to go on.
proof fn lemma_reply_proves(
    task: SettleInternalMatchTask,
    submission: Submission,
    reply: Result<Reply, SettleInternalMatchTaskError>,
    found: Set<Commitment>,
    then_found: Set<Commitment>,
)
    requires
        submission.well_formed(task),
        !(submission is Ready),
        reply is Ok ==> submission.next_action(task).answered_by(reply->Ok_0),
        has_proven(submission, found),
        found.subset_of(then_found),
        reply is Ok && submission is Proving ==> then_found.contains(
            submission.next_action(task)->FindCommitment_commitment,
        ),
    ensures
        submission.after_reply(task, reply).1 matches Ok(next) ==> has_proven(next, then_found),
{
}

/// Fetching Merkle proofs takes at most three calls for each party.
proof fn lemma_sync_plan(transitions: Transitions)
    ensures
        full_sync_plan(transitions).len() <= 6,
        forall|index: int|
            0 <= index < full_sync_plan(transitions).len() ==> (#[trigger] full_sync_plan(
                transitions,
            )[index] is SyncIntentProof || full_sync_plan(transitions)[index] is SyncBalanceProof),
{
    let plan0 = sync_plan(transitions.party0);
    let plan1 = sync_plan(transitions.party1);
    assert forall|index: int| 0 <= index < full_sync_plan(transitions).len() implies (
    #[trigger] full_sync_plan(transitions)[index] is SyncIntentProof || full_sync_plan(
        transitions,
    )[index] is SyncBalanceProof) by {
        if index < plan0.len() {
            assert(full_sync_plan(transitions)[index] == plan0[index]);
        } else {
            assert(full_sync_plan(transitions)[index] == plan1[index - plan0.len()]);
        }
    }
}

/// Wherever the on-chain leg of a task stands, it is a point that it can come to. Of the
/// task only the updated orders and balances have changed, and, once the transitions are
/// persisted, the state. A recovery changes nothing of the task.
pub proof fn law_run_keeps_invariant(
    task: SettleInternalMatchTask,
    replies: Replies,
    count: nat,
)
    requires
        at_first_leg(task),
    ensures
        reached(task, replies, count) matches Some((now, submission)) ==> {
            &&& submission.well_formed(now)
            &&& now.restored_from_queue == task.restored_from_queue
            &&& now.account_id == task.account_id
            &&& now.other_account_id == task.other_account_id
            &&& now.order_id == task.order_id
            &&& now.other_order_id == task.other_order_id
            &&& now.execution_price == task.execution_price
            &&& now.match_result == task.match_result
            &&& now.task_state == task.task_state || (task.can_submit()
                && now.task_state is SubmittingTxPlanned)
            &&& task.task_state is SubmittingTxPlanned ==> now == task && is_recovery(submission)
            &&& task.task_state is SubmittingTx ==> task.can_submit() && !(
            submission is Proving || submission is Syncing)
        },
    decreases count,
{
    reveal(reached);
    if count == 0 {
        Submission::lemma_begin_is_well_formed(task);
    } else if count <= replies.len() {
        law_run_keeps_invariant(task, replies, (count - 1) as nat);
        match reached(task, replies, (count - 1) as nat) {
            Some((now, submission)) => {
                let reply = replies[count - 1];
                if !(submission is Ready) && (reply is Ok ==> submission.next_action(
                    now,
                ).answered_by(reply->Ok_0)) {
                    submission.lemma_step_keeps_well_formed(now, reply);
                }
            },
            None => {},
        }
    }
}

/// Whether a point is one that a recovery comes to.
pub open spec fn is_recovery(submission: Submission) -> bool {
    submission is Proving || submission is Syncing || submission is Ready
}

/// Where the on-chain leg has taken in a reply, it stood at a point that it can come
/// to, and has gone on from there.
pub(crate) proof fn lemma_last_reply(
    task: SettleInternalMatchTask,
    replies: Replies,
    count: nat,
) -> (last: (SettleInternalMatchTask, Submission))
    requires
        at_first_leg(task),
        count > 0,
        reached(task, replies, count) is Some,
    ensures
        count <= replies.len(),
        reached(task, replies, (count - 1) as nat) == Some(last),
        last.1.well_formed(last.0),
        !(last.1 is Ready),
        calls(task, replies, (count - 1) as nat, last.1.next_action(last.0)),
        replies[count - 1] is Ok ==> last.1.next_action(last.0).answered_by(
            replies[count - 1]->Ok_0,
        ),
        ({
            let (now, next) = last.1.after_reply(last.0, replies[count - 1]);
            &&& next is Ok
            &&& reached(task, replies, count) == Some((now, next->Ok_0))
        }),
{
    law_run_keeps_invariant(task, replies, (count - 1) as nat);
    reveal(reached);
    reached(task, replies, (count - 1) as nat)->0
}

/// Before the first reply, the on-chain leg stands at its beginning.
pub(crate) proof fn lemma_no_reply(task: SettleInternalMatchTask, replies: Replies)
    ensures
        reached(task, replies, 0) == match Submission::begin(task) {
            Ok(submission) => Some((task, submission)),
            Err(_) => None,
        },
{
    reveal(reached);
}

/// Wherever a recovery stands, its lookups have found what it takes to stand there.
proof fn lemma_run_has_proven(task: SettleInternalMatchTask, replies: Replies, count: nat)
    requires
        task.task_state is SubmittingTxPlanned,
        reached(task, replies, count) is Some,
    ensures
        has_proven(point(task, replies, count), found_on_chain(task, replies, count)),
    decreases count,
{
    if count == 0 {
        lemma_no_reply(task, replies);
    } else {
        let last = (count - 1) as nat;
        let (now, submission) = lemma_last_reply(task, replies, count);
        lemma_run_has_proven(task, replies, last);
        let found = found_on_chain(task, replies, last);
        let then_found = found_on_chain(task, replies, count);
        assert(found.subset_of(then_found)) by {
            assert forall|commitment: Commitment| found.contains(commitment) implies #[trigger]
            then_found.contains(commitment) by {
                let index = choose|index: nat|
                    index < last && index < replies.len() && replies[index as int] is Ok
                        && #[trigger] calls(
                        task,
                        replies,
                        index,
                        Action::FindCommitment { commitment },
                    );
                assert(calls(task, replies, index, Action::FindCommitment { commitment }));
            }
        }
        lemma_reply_proves(now, submission, replies[last as int], found, then_found);
    }
}

/// A recovered settlement ends its on-chain leg only where the chain has proven the
/// leg of both parties.
pub proof fn law_recovery_is_proven(
    task: SettleInternalMatchTask,
    replies: Replies,
    count: nat,
    now: SettleInternalMatchTask,
    transitions: Transitions,
)
    requires
        task.task_state is SubmittingTxPlanned,
        reached(task, replies, count) == Some((now, Submission::Ready { transitions })),
    ensures
        committed_on_chain(transitions.party0, found_on_chain(task, replies, count)),
        committed_on_chain(transitions.party1, found_on_chain(task, replies, count)),
{
    lemma_run_has_proven(task, replies, count);
}

/// A recovery stores a Merkle proof only once the chain has proven the leg of both
/// parties.
pub proof fn law_proofs_are_synced_only_when_proven(
    task: SettleInternalMatchTask,
    replies: Replies,
    index: nat,
    action: Action,
    transitions: Transitions,
)
    requires
        transitions.planned_by(task),
        calls(task, replies, index, action),
        action is SyncIntentProof || action is SyncBalanceProof,
    ensures
        committed_on_chain(transitions.party0, found_on_chain(task, replies, index)),
        committed_on_chain(transitions.party1, found_on_chain(task, replies, index)),
{
    law_run_keeps_invariant(task, replies, index);
    lemma_run_has_proven(task, replies, index);
}

/// A settlement that may have been submitted is never submitted again, and nothing that
/// is expected of it is built again: a task with a plan, and any restored task, makes no
/// calls but to look commitments up and to fetch Merkle proofs.
pub proof fn law_recovery_never_submits(
    task: SettleInternalMatchTask,
    replies: Replies,
    index: nat,
    action: Action,
)
    requires
        task.task_state is SubmittingTxPlanned || (task.task_state is SubmittingTx
            && task.restored_from_queue),
        calls(task, replies, index, action),
    ensures
        action is FindCommitment || action is SyncIntentProof || action is SyncBalanceProof,
        !(action is SettleMatch),
        !(action is BuildBundle),
        !(action is BuildUpdatedIntent),
        !(action is BuildInputBalance),
        !(action is BuildOutputBalance),
        !(action is BuildEoaBalance),
        !(action is PersistState),
{
    law_run_keeps_invariant(task, replies, index);
    let (now, submission) = reached(task, replies, index)->0;
    if let Submission::Syncing { transitions, .. } = submission {
        lemma_sync_plan(transitions);
    }
}

/// A recovery goes by what was persisted alone: for one persisted state, however the
/// services answer and whatever else two tasks hold, the on-chain leg can only end with
/// the same transitions, the persisted ones.
pub proof fn law_recovery_is_determined(
    task: SettleInternalMatchTask,
    other: SettleInternalMatchTask,
    replies: Replies,
    other_replies: Replies,
    count: nat,
    other_count: nat,
    now: SettleInternalMatchTask,
    other_now: SettleInternalMatchTask,
    transitions: Transitions,
    other_transitions: Transitions,
)
    requires
        task.task_state == other.task_state,
        at_first_leg(task),
        task.restored_from_queue,
        other.restored_from_queue,
        reached(task, replies, count) == Some((now, Submission::Ready { transitions })),
        reached(other, other_replies, other_count) == Some(
            (other_now, Submission::Ready { transitions: other_transitions }),
        ),
    ensures
        transitions.planned_by(task),
        transitions == other_transitions,
        transitions.party0.order_after == other_transitions.party0.order_after,
        transitions.party1.order_after == other_transitions.party1.order_after,
        transitions.party0.input_balance_after == other_transitions.party0.input_balance_after,
        transitions.party1.input_balance_after == other_transitions.party1.input_balance_after,
        transitions.party0.output_balance_after == other_transitions.party0.output_balance_after,
        transitions.party1.output_balance_after == other_transitions.party1.output_balance_after,
{
    law_run_keeps_invariant(task, replies, count);
    law_run_keeps_invariant(other, other_replies, other_count);
}

/// The on-chain leg, submitted or recovered, leaves the local balances and the
/// local orders alone.
pub proof fn law_first_leg_writes_no_local_state(
    task: SettleInternalMatchTask,
    replies: Replies,
    index: nat,
    action: Action,
)
    requires
        at_first_leg(task),
        calls(task, replies, index, action),
    ensures
        !action.writes_local_state(),
{
    law_run_keeps_invariant(task, replies, index);
    let (now, submission) = reached(task, replies, index)->0;
    if let Submission::Syncing { transitions, .. } = submission {
        lemma_sync_plan(transitions);
    }
}

/// Whether, among the first `count` calls of a run, there is one that built the
/// settlement bundle of a party.
pub open spec fn bundle_was_built(
    task: SettleInternalMatchTask,
    replies: Replies,
    count: nat,
    party: PartyId,
    bundle: BundleHandle,
) -> bool {
    exists|index: nat|
        index < count && index < replies.len() && replies[index as int] == Ok::<
            Reply,
            SettleInternalMatchTaskError,
        >(Reply::Bundle(bundle)) && #[trigger] calls(
            task,
            replies,
            index,
            Action::BuildBundle {
                order_id: task.order_of(party),
                obligation: task.obligation_of(party),
            },
        )
}

/// Whether, among the first `count` calls of a run, there is one that persisted what is
/// expected of the match.
pub open spec fn plan_was_persisted(
    task: SettleInternalMatchTask,
    replies: Replies,
    count: nat,
    transitions: Transitions,
) -> bool {
    exists|index: nat|
        index < count && index < replies.len() && replies[index as int] is Ok && #[trigger] calls(
            task,
            replies,
            index,
            Action::PersistState {
                state: SettleInternalMatchTaskState::SubmittingTxPlanned {
                    party0: transitions.party0,
                    party1: transitions.party1,
                },
            },
        )
}

/// What a run must have built and persisted to stand where it does.
spec fn has_prepared(
    task: SettleInternalMatchTask,
    replies: Replies,
    count: nat,
    submission: Submission,
) -> bool {
    match submission {
        Submission::Bundling { built: Some(bundle), .. } => bundle_was_built(
            task,
            replies,
            count,
            PartyId::Party0,
            bundle,
        ),
        Submission::Intending { ground, .. }
        | Submission::Balancing { ground, .. }
        | Submission::EoaBalancing { ground, .. }
        | Submission::Planning { ground, .. } => {
            &&& bundle_was_built(task, replies, count, PartyId::Party0, ground.bundle0)
            &&& bundle_was_built(task, replies, count, PartyId::Party1, ground.bundle1)
        },
        Submission::Settling { bundle0, bundle1, transitions } => {
            &&& bundle_was_built(task, replies, count, PartyId::Party0, bundle0)
            &&& bundle_was_built(task, replies, count, PartyId::Party1, bundle1)
            &&& plan_was_persisted(task, replies, count, transitions)
        },
        _ => true,
    }
}

/// A bundle that was built stays built.
proof fn lemma_bundle_stays(
    task: SettleInternalMatchTask,
    replies: Replies,
    count: nat,
    party: PartyId,
    bundle: BundleHandle,
)
    requires
        bundle_was_built(task, replies, count, party, bundle),
    ensures
        bundle_was_built(task, replies, count + 1, party, bundle),
{
    let action = Action::BuildBundle {
        order_id: task.order_of(party),
        obligation: task.obligation_of(party),
    };
    let index = choose|index: nat|
        index < count && index < replies.len() && replies[index as int] == Ok::<
            Reply,
            SettleInternalMatchTaskError,
        >(Reply::Bundle(bundle)) && #[trigger] calls(task, replies, index, action);
    assert(calls(task, replies, index, action));
}

/// Wherever a run stands, it has built and persisted what it takes to stand there.
proof fn lemma_run_has_prepared(task: SettleInternalMatchTask, replies: Replies, count: nat)
    requires
        at_first_leg(task),
        reached(task, replies, count) is Some,
    ensures
        has_prepared(task, replies, count, point(task, replies, count)),
    decreases count,
{
    if count == 0 {
        lemma_no_reply(task, replies);
    } else {
        let last = (count - 1) as nat;
        let (now, submission) = lemma_last_reply(task, replies, count);
        lemma_run_has_prepared(task, replies, last);
        law_run_keeps_invariant(task, replies, last);
        match submission {
            Submission::Bundling { built, .. } => {
                if let Some(bundle) = built {
                    lemma_bundle_stays(task, replies, last, PartyId::Party0, bundle);
                    assert(calls(
                        task,
                        replies,
                        last,
                        Action::BuildBundle {
                            order_id: task.order_of(PartyId::Party1),
                            obligation: task.obligation_of(PartyId::Party1),
                        },
                    ));
                } else {
                    assert(calls(
                        task,
                        replies,
                        last,
                        Action::BuildBundle {
                            order_id: task.order_of(PartyId::Party0),
                            obligation: task.obligation_of(PartyId::Party0),
                        },
                    ));
                }
            },
            Submission::Intending { ground, .. }
            | Submission::Balancing { ground, .. }
            | Submission::EoaBalancing { ground, .. }
            | Submission::Planning { ground, .. } => {
                lemma_bundle_stays(task, replies, last, PartyId::Party0, ground.bundle0);
                lemma_bundle_stays(task, replies, last, PartyId::Party1, ground.bundle1);
            },
            _ => {},
        }
    }
}

/// A match is submitted only with the settlement bundles of both parties, each built for
/// the order and the obligation of its party and handed over in the order of the parties,
/// and only after both local states were captured and what is expected of the match was
/// persisted. The task is then in the persisted state.
pub proof fn law_submission_is_prepared(
    task: SettleInternalMatchTask,
    replies: Replies,
    index: nat,
    action: Action,
)
    requires
        at_first_leg(task),
        calls(task, replies, index, action),
        action is SettleMatch,
    ensures
        action matches Action::SettleMatch { match_result, bundle0, bundle1 } && {
            &&& match_result == task.match_result
            &&& bundle_was_built(task, replies, index, PartyId::Party0, bundle0)
            &&& bundle_was_built(task, replies, index, PartyId::Party1, bundle1)
        },
        ({
            let (now, submission) = reached(task, replies, index)->0;
            exists|transitions: Transitions| #[trigger]
                transitions.planned_by(now) && plan_was_persisted(
                    task,
                    replies,
                    index,
                    transitions,
                ) && transitions.belongs_to(now)
        }),
{
    lemma_only_settling_submits(task, replies, index, action);
    lemma_run_has_prepared(task, replies, index);
    law_run_keeps_invariant(task, replies, index);
    let (now, submission) = reached(task, replies, index)->0;
    let transitions = submission->Settling_transitions;
    assert(transitions.planned_by(now));
}

/// Both settlement bundles are built only after both local states were captured.
pub proof fn law_bundles_follow_captures(
    task: SettleInternalMatchTask,
    replies: Replies,
    index: nat,
    action: Action,
)
    requires
        at_first_leg(task),
        calls(task, replies, index, action),
        action is BuildBundle,
    ensures
        reached(task, replies, index) matches Some((now, Submission::Bundling { before, .. }))
            && before.belongs_to(task),
{
    law_run_keeps_invariant(task, replies, index);
    let (now, submission) = reached(task, replies, index)->0;
    if let Submission::Syncing { transitions, .. } = submission {
        lemma_sync_plan(transitions);
    }
}

/// The place of a point in the course of the on-chain leg.
spec fn stage(submission: Submission) -> nat {
    match submission {
        Submission::Capturing { .. } => 0,
        Submission::Bundling { .. } => 1,
        Submission::Intending { .. } => 2,
        Submission::Balancing { .. } => 3,
        Submission::EoaBalancing { .. } => 3,
        Submission::Planning { .. } => 4,
        Submission::Settling { .. } => 5,
        Submission::StoringProofs { .. } => 6,
        Submission::Proving { .. } => 6,
        Submission::Syncing { .. } => 7,
        Submission::Ready { .. } => 8,
    }
}

/// The on-chain leg never goes back.
proof fn lemma_stages_advance(
    task: SettleInternalMatchTask,
    replies: Replies,
    early: nat,
    late: nat,
)
    requires
        at_first_leg(task),
        early < late,
        reached(task, replies, late) is Some,
    ensures
        reached(task, replies, early) is Some,
        stage(point(task, replies, early)) <= stage(point(task, replies, late)),
        point(task, replies, early) is Settling ==> stage(point(task, replies, late)) > 5,
    decreases late,
{
    let last = (late - 1) as nat;
    let (now, submission) = lemma_last_reply(task, replies, late);
    lemma_reply_advances(now, submission, replies[late - 1]);
    if early < last {
        lemma_stages_advance(task, replies, early, last);
    }
}

/// A reply never takes the on-chain leg back.
proof fn lemma_reply_advances(
    task: SettleInternalMatchTask,
    submission: Submission,
    reply: Result<Reply, SettleInternalMatchTaskError>,
)
    requires
        submission.well_formed(task),
        !(submission is Ready),
        reply is Ok ==> submission.next_action(task).answered_by(reply->Ok_0),
    ensures
        submission.after_reply(task, reply).1 matches Ok(next) ==> {
            &&& stage(submission) <= stage(next)
            &&& submission is Settling ==> stage(next) > 5
            &&& submission is Settling ==> reply is Ok
            &&& !is_recovery(submission) && stage(next) > 5 ==> stage(submission) >= 5
        },
{
}

/// A match is submitted at most once in a run of the on-chain leg.
pub proof fn law_submits_at_most_once(
    task: SettleInternalMatchTask,
    replies: Replies,
    first: nat,
    second: nat,
    action1: Action,
    action2: Action,
)
    requires
        at_first_leg(task),
        calls(task, replies, first, action1),
        calls(task, replies, second, action2),
        action1 is SettleMatch,
        action2 is SettleMatch,
    ensures
        first == second,
{
    law_run_keeps_invariant(task, replies, first);
    law_run_keeps_invariant(task, replies, second);
    lemma_only_settling_submits(task, replies, first, action1);
    lemma_only_settling_submits(task, replies, second, action2);
    if first < second {
        lemma_stages_advance(task, replies, first, second);
    } else if second < first {
        lemma_stages_advance(task, replies, second, first);
    }
}

/// A run submits a match only where it is about to settle.
proof fn lemma_only_settling_submits(
    task: SettleInternalMatchTask,
    replies: Replies,
    index: nat,
    action: Action,
)
    requires
        at_first_leg(task),
        calls(task, replies, index, action),
        action is SettleMatch,
    ensures
        point(task, replies, index) is Settling,
{
    law_run_keeps_invariant(task, replies, index);
    let (now, submission) = reached(task, replies, index)->0;
    if let Submission::Syncing { transitions, .. } = submission {
        lemma_sync_plan(transitions);
    }
}

/// A fresh settlement ends its on-chain leg only after the match was submitted with
/// success.
pub proof fn law_fresh_match_is_submitted(
    task: SettleInternalMatchTask,
    replies: Replies,
    count: nat,
    now: SettleInternalMatchTask,
    transitions: Transitions,
)
    requires
        task.task_state is SubmittingTx,
        reached(task, replies, count) == Some((now, Submission::Ready { transitions })),
    ensures
        exists|index: nat, action: Action|
            index < count && replies[index as int] is Ok && action is SettleMatch
                && #[trigger] calls(task, replies, index, action),
{
    lemma_has_submitted(task, replies, count);
}

/// A fresh settlement gets past its submission only by submitting the match with
/// success.
proof fn lemma_has_submitted(task: SettleInternalMatchTask, replies: Replies, count: nat)
    requires
        task.task_state is SubmittingTx,
        reached(task, replies, count) is Some,
        stage(point(task, replies, count)) > 5,
    ensures
        exists|index: nat, action: Action|
            index < count && replies[index as int] is Ok && action is SettleMatch
                && #[trigger] calls(task, replies, index, action),
    decreases count,
{
    if count == 0 {
        lemma_no_reply(task, replies);
    }
    let last = (count - 1) as nat;
    let (now, submission) = lemma_last_reply(task, replies, count);
    lemma_reply_advances(now, submission, replies[count - 1]);
    law_run_keeps_invariant(task, replies, last);
    if submission is Settling {
        assert(calls(task, replies, last, submission.next_action(now)));
    } else {
        lemma_has_submitted(task, replies, last);
    }
}

/// A match is not submitted twice, whatever became of the first submission: a task that
/// has made one, and whose on-chain leg is begun again, makes no other.
pub proof fn law_never_submits_twice(
    task: SettleInternalMatchTask,
    replies: Replies,
    first: nat,
    count: nat,
    action: Action,
    now: SettleInternalMatchTask,
    submission: Submission,
    again_replies: Replies,
    again: nat,
    again_action: Action,
)
    requires
        at_first_leg(task),
        calls(task, replies, first, action),
        action is SettleMatch,
        first <= count,
        reached(task, replies, count) == Some((now, submission)),
        calls(now, again_replies, again, again_action),
    ensures
        !(again_action is SettleMatch),
{
    lemma_only_settling_submits(task, replies, first, action);
    if first < count {
        lemma_stages_advance(task, replies, first, count);
    }
    law_run_keeps_invariant(task, replies, count);
    law_recovery_never_submits(now, again_replies, again, again_action);
}

/// How many calls a capture still makes at most.
spec fn calls_to_capture(capture: Capture) -> int {
    match capture {
        Capture::Order => 3,
        Capture::InputBalance { .. } => 2,
        Capture::OutputBalance { .. } => 1,
        Capture::Captured { .. } => 0,
    }
}

/// How many calls the on-chain leg of a task still makes at most.
spec fn calls_left(submission: Submission) -> int {
    match submission {
        Submission::Capturing { captured: None, capture } => calls_to_capture(capture) + 14,
        Submission::Capturing { captured: Some(_), capture } => calls_to_capture(capture) + 11,
        Submission::Bundling { built: None, .. } => 11,
        Submission::Bundling { built: Some(_), .. } => 10,
        Submission::Intending { updated_order0: None, .. } => 9,
        Submission::Intending { updated_order0: Some(_), .. } => 8,
        Submission::Balancing { party, input_balance, .. } => 3 + (if party == PartyId::Party0 {
            2int
        } else {
            0int
        }) + (if input_balance is None {
            2int
        } else {
            1int
        }),
        Submission::EoaBalancing { party, .. } => if party == PartyId::Party0 {
            6
        } else {
            4
        },
        Submission::Planning { .. } => 3,
        Submission::Settling { .. } => 2,
        Submission::StoringProofs { .. } => 1,
        Submission::Proving { party, lookup, .. } => (if party == PartyId::Party0 {
            9int
        } else {
            6int
        }) + (match lookup {
            Lookup::Order => 3int,
            Lookup::InputBalance => 2int,
            Lookup::OutputBalance { .. } => 1int,
        }),
        Submission::Syncing { transitions, done } => full_sync_plan(transitions).len() - done,
        Submission::Ready { .. } => 0,
    }
}

/// The on-chain leg comes to its end: it makes at most seventeen calls to submit a
/// match, and at most twelve to recover one.
pub proof fn law_run_is_bounded(task: SettleInternalMatchTask, replies: Replies, count: nat)
    requires
        at_first_leg(task),
        reached(task, replies, count) is Some,
    ensures
        count <= (if task.task_state is SubmittingTxPlanned {
            12int
        } else {
            17int
        }),
{
    lemma_calls_left(task, replies, count);
}

/// What was called and what is left to call stay within the bounds.
proof fn lemma_calls_left(task: SettleInternalMatchTask, replies: Replies, count: nat)
    requires
        at_first_leg(task),
        reached(task, replies, count) is Some,
    ensures
        0 <= calls_left(point(task, replies, count)),
        count + calls_left(point(task, replies, count)) <= (
        if task.task_state is SubmittingTxPlanned {
            12int
        } else {
            17int
        }),
    decreases count,
{
    if count == 0 {
        lemma_no_reply(task, replies);
    } else {
        let (now, submission) = lemma_last_reply(task, replies, count);
        lemma_calls_left(task, replies, (count - 1) as nat);
        lemma_reply_takes_a_call(now, submission, replies[count - 1]);
    }
}

/// A reply takes one from the calls that are left.
proof fn lemma_reply_takes_a_call(
    task: SettleInternalMatchTask,
    submission: Submission,
    reply: Result<Reply, SettleInternalMatchTaskError>,
)
    requires
        submission.well_formed(task),
        !(submission is Ready),
        reply is Ok ==> submission.next_action(task).answered_by(reply->Ok_0),
    ensures
        submission.after_reply(task, reply).1 matches Ok(next) ==> 0 <= calls_left(next)
            < calls_left(submission),
{
    match submission {
        Submission::Proving { transitions, .. } | Submission::Syncing { transitions, .. } => {
            lemma_sync_plan(transitions);
        },
        _ => {},
    }
}

/// Whether a point of the on-chain leg goes by given local states.
spec fn goes_by(submission: Submission, before: BeforeStates) -> bool {
    match submission {
        Submission::Bundling { before: kept, .. } => kept == before,
        Submission::Intending { ground, .. }
        | Submission::Balancing { ground, .. }
        | Submission::EoaBalancing { ground, .. } => ground.before == before,
        Submission::Planning { transitions, .. }
        | Submission::Settling { transitions, .. }
        | Submission::StoringProofs { transitions }
        | Submission::Ready { transitions } => transitions.starts_from(before),
        _ => false,
    }
}

/// The on-chain leg goes by the local states that it once captured.
proof fn lemma_goes_by_captured(
    task: SettleInternalMatchTask,
    replies: Replies,
    early: nat,
    late: nat,
    before: BeforeStates,
)
    requires
        at_first_leg(task),
        early <= late,
        reached(task, replies, early) is Some,
        reached(task, replies, late) is Some,
        goes_by(point(task, replies, early), before),
    ensures
        goes_by(point(task, replies, late), before),
    decreases late,
{
    if early < late {
        let (now, submission) = lemma_last_reply(task, replies, late);
        lemma_goes_by_captured(task, replies, early, (late - 1) as nat, before);
        lemma_reply_keeps_captured(now, submission, replies[late - 1], before);
    }
}

/// A reply does not change the local states by which the on-chain leg goes.
proof fn lemma_reply_keeps_captured(
    task: SettleInternalMatchTask,
    submission: Submission,
    reply: Result<Reply, SettleInternalMatchTaskError>,
    before: BeforeStates,
)
    requires
        submission.well_formed(task),
        !(submission is Ready),
        reply is Ok ==> submission.next_action(task).answered_by(reply->Ok_0),
        goes_by(submission, before),
    ensures
        submission.after_reply(task, reply).1 matches Ok(next) ==> goes_by(next, before),
{
    let (next, _) = submission.after_reply(task, reply);
    assert(transitions_of(next, before) matches Ok(transitions) ==> transitions.starts_from(
        before,
    ));
}

/// The transitions with which a submission ends belong to the parties of the task, and
/// start from the local states that were captured before anything was submitted.
pub proof fn law_transitions_start_from_captured_state(
    task: SettleInternalMatchTask,
    replies: Replies,
    captured: nat,
    count: nat,
    party0: PartyLocalState,
    capture: Capture,
    party1: PartyLocalState,
    now: SettleInternalMatchTask,
    transitions: Transitions,
)
    requires
        at_first_leg(task),
        captured < count,
        reached(task, replies, captured) == Some(
            (task, Submission::Capturing { captured: Some(party0), capture }),
        ),
        replies[captured as int] matches Ok(reply) && capture.after_reply(
            task,
            PartyId::Party1,
            reply,
        ) == (Capture::Captured { state: party1 }),
        reached(task, replies, count) == Some((now, Submission::Ready { transitions })),
    ensures
        transitions.planned_by(now),
        transitions.starts_from(BeforeStates { party0, party1 }),
{
    let before = BeforeStates { party0, party1 };
    law_run_keeps_invariant(task, replies, count);
    if captured + 1 < count {
        lemma_stages_advance(task, replies, captured + 1, count);
    }
    lemma_last_reply(task, replies, captured + 1);
    lemma_goes_by_captured(task, replies, captured + 1, count, before);
}

/// The transitions with which a submission ends start from local states that the parties
/// of the task can have.
pub proof fn law_submission_starts_from_local_states(
    task: SettleInternalMatchTask,
    replies: Replies,
    count: nat,
    now: SettleInternalMatchTask,
    transitions: Transitions,
)
    requires
        task.task_state is SubmittingTx,
        reached(task, replies, count) == Some((now, Submission::Ready { transitions })),
    ensures
        is_local_state_of(state_before(transitions.party0), task, PartyId::Party0),
        is_local_state_of(state_before(transitions.party1), task, PartyId::Party1),
{
    if count == 0 {
        lemma_no_reply(task, replies);
    } else {
        let (last, submission) = lemma_last_reply(task, replies, count);
        law_run_keeps_invariant(task, replies, (count - 1) as nat);
    }
}

/// Whether a transition leads to the balances that applying it leaves: both updated
/// balances for an order of the second ring; for an EOA order an updated input balance,
/// where there is an input balance; and no balance else.
pub open spec fn foresees_writes(transition: PartyStateTransition) -> bool {
    let order = transition.order_after;
    if order.ring == PrivacyRing::Ring2 {
        transition.input_balance_after is Some && transition.output_balance_after is Some
    } else {
        &&& transition.output_balance_after is None
        &&& transition.input_balance_after is Some <==> order.ring.spec_balance_location()
            == BalanceLocation::EOA && transition.input_balance_before is Some
    }
}

/// Whether a task knows of no balance of a party after the settlement.
pub open spec fn knows_no_balance(task: SettleInternalMatchTask, party: PartyId) -> bool {
    task.updated_input_of(party) is None && task.updated_output_of(party) is None
}

/// Whether what a task knows of a party foresees what applying it leaves.
spec fn party_foresees(
    task: SettleInternalMatchTask,
    before: BeforeStates,
    party: PartyId,
) -> bool {
    task.transition_of(party, before.of(party)) matches Ok(transition)
        && foresees_writes(transition)
}

/// Whether a point of a submission foresees what applying its outcome leaves.
spec fn run_foresees(
    task: SettleInternalMatchTask,
    submission: Submission,
) -> bool {
    match submission {
        Submission::Balancing { ground, party, .. } | Submission::EoaBalancing { ground, party } => {
            &&& knows_no_balance(task, PartyId::Party1)
            &&& match party {
                PartyId::Party0 => knows_no_balance(task, PartyId::Party0),
                PartyId::Party1 => party_foresees(
                    task,
                    ground.before,
                    PartyId::Party0,
                ),
            }
        },
        Submission::Planning { transitions, .. }
        | Submission::Settling { transitions, .. }
        | Submission::StoringProofs { transitions }
        | Submission::Ready { transitions } => {
            &&& foresees_writes(transitions.party0)
            &&& foresees_writes(transitions.party1)
        },
        _ => knows_no_balance(task, PartyId::Party0) && knows_no_balance(task, PartyId::Party1),
    }
}

/// Once the updated balances of a party are known, a submission goes on foreseeing.
proof fn lemma_balanced_foresees(
    task: SettleInternalMatchTask,
    ground: Groundwork,
    party: PartyId,
)
    requires
        task.updated_order0 is Some,
        task.updated_order1 is Some,
        party_foresees(task, ground.before, PartyId::Party0),
        match party {
            PartyId::Party0 => knows_no_balance(task, PartyId::Party1),
            PartyId::Party1 => party_foresees(task, ground.before, PartyId::Party1),
        },
    ensures
        Submission::once_balanced(task, ground, party) matches Ok(next) ==> run_foresees(
            task,
            next,
        ),
{
}

/// Once the updated orders are known, a submission goes on foreseeing.
proof fn lemma_intended_foresees(
    task: SettleInternalMatchTask,
    ground: Groundwork,
)
    requires
        task.updated_order0 is Some,
        task.updated_order1 is Some,
        knows_no_balance(task, PartyId::Party0),
        knows_no_balance(task, PartyId::Party1),
    ensures
        Submission::once_intended(task, ground) matches Ok(next) ==> run_foresees(
            task,
            next,
        ),
{
    if Submission::balancing(task, ground, PartyId::Party0) is None {
        lemma_balanced_foresees(task, ground, PartyId::Party0);
    }
}

/// A reply keeps a submission foreseeing.
proof fn lemma_reply_foresees(
    task: SettleInternalMatchTask,
    submission: Submission,
    reply: Result<Reply, SettleInternalMatchTaskError>,
)
    requires
        submission.well_formed(task),
        !is_recovery(submission),
        reply is Ok ==> submission.next_action(task).answered_by(reply->Ok_0),
        run_foresees(task, submission),
    ensures
        ({
            let (now, next) = submission.after_reply(task, reply);
            next is Ok ==> run_foresees(now, next->Ok_0)
        }),
{
    let (now, next) = submission.after_reply(task, reply);
    match submission {
        Submission::Intending { ground, updated_order0 } => {
            if updated_order0 is Some && reply is Ok {
                lemma_intended_foresees(now, ground);
            }
        },
        Submission::Balancing { ground, party, input_balance } => {
            if input_balance is Some && reply is Ok {
                assert(now.updated_order_of(party) == task.updated_order_of(party));
                lemma_balanced_foresees(now, ground, party);
            }
        },
        Submission::EoaBalancing { ground, party } => {
            if reply is Ok {
                assert(now.updated_order_of(party) == task.updated_order_of(party));
                lemma_balanced_foresees(now, ground, party);
            }
        },
        _ => {},
    }
}

/// Wherever a submission stands, it foresees what applying its outcome leaves.
proof fn lemma_run_foresees(
    task: SettleInternalMatchTask,
    replies: Replies,
    count: nat,
)
    requires
        task.task_state is SubmittingTx,
        knows_no_balance(task, PartyId::Party0),
        knows_no_balance(task, PartyId::Party1),
        reached(task, replies, count) is Some,
    ensures
        ({
            let (now, submission) = reached(task, replies, count)->0;
            run_foresees(now, submission)
        }),
    decreases count,
{
    if count == 0 {
        lemma_no_reply(task, replies);
    } else {
        let (now, submission) = lemma_last_reply(task, replies, count);
        lemma_run_foresees(task, replies, (count - 1) as nat);
        law_run_keeps_invariant(task, replies, (count - 1) as nat);
        lemma_reply_foresees(now, submission, replies[count - 1]);
    }
}

/// A submission of a task that was made from its descriptor ends with transitions that
/// foresee what applying them leaves, in every ring.
pub proof fn law_submission_foresees_writes(
    task: SettleInternalMatchTask,
    replies: Replies,
    count: nat,
    now: SettleInternalMatchTask,
    transitions: Transitions,
)
    requires
        task.task_state is SubmittingTx,
        knows_no_balance(task, PartyId::Party0),
        knows_no_balance(task, PartyId::Party1),
        reached(task, replies, count) == Some((now, Submission::Ready { transitions })),
    ensures
        foresees_writes(transitions.party0),
        foresees_writes(transitions.party1),
{
    lemma_run_foresees(task, replies, count);
    law_run_keeps_invariant(task, replies, count);
}

/// What is known of a party's on-chain leg after one more lookup on a chain.
pub open spec fn looked_up(
    transition: PartyStateTransition,
    first_leg: FirstLeg,
    chain: Set<Commitment>,
) -> FirstLeg {
    match first_leg {
        FirstLeg::Unknown { lookup } => first_leg_after(
            transition,
            lookup,
            chain.contains(lookup_action(transition, lookup)->FindCommitment_commitment),
        ),
        known => known,
    }
}

/// Three lookups decide whether a party's on-chain leg has finalized, and they find
/// that it has if and only if the chain holds all that the settlement commits to.
pub proof fn law_first_leg_verdict(transition: PartyStateTransition, chain: Set<Commitment>)
    ensures
        ({
            let first = looked_up(transition, first_leg_start(transition), chain);
            let second = looked_up(transition, first, chain);
            looked_up(transition, second, chain) == (FirstLeg::Known {
                finalized: committed_on_chain(transition, chain),
            })
        }),
{
}

/// A recovered settlement of which one party's on-chain leg is not proven is refused,
/// and so is one with a fully public order. A restored task that has persisted nothing by
/// which its leg could be proven is refused outright.
pub proof fn law_unproven_first_leg_is_refused(
    transitions: Transitions,
    party: PartyId,
    task: SettleInternalMatchTask,
)
    ensures
        task.task_state is SubmittingTx && task.restored_from_queue ==> Submission::begin(task)
            == Err::<Submission, SettleInternalMatchTaskErrorView>(not_finalized()),
        Submission::once_first_leg(transitions, party, FirstLeg::Known { finalized: false })
            == Err::<Submission, SettleInternalMatchTaskErrorView>(not_finalized()),
        transitions.party0.order_after.ring == PrivacyRing::Ring0 ==> Submission::once_first_leg(
            transitions,
            PartyId::Party0,
            first_leg_start(transitions.party0),
        ) == Err::<Submission, SettleInternalMatchTaskErrorView>(not_finalized()),
        transitions.party1.order_after.ring == PrivacyRing::Ring0 ==> Submission::once_first_leg(
            transitions,
            PartyId::Party0,
            FirstLeg::Known { finalized: true },
        ) == Err::<Submission, SettleInternalMatchTaskErrorView>(not_finalized()),
{
}

/// What services answer to a call.
pub type Services = spec_fn(Action) -> Result<Reply, SettleInternalMatchTaskError>;

/// How the on-chain leg of a task goes on from a point with given services, for the
/// given number of calls or until it ends.
pub open spec fn run_with(
    task: SettleInternalMatchTask,
    submission: Submission,
    services: Services,
    count: nat,
) -> (SettleInternalMatchTask, Result<Submission, SettleInternalMatchTaskErrorView>)
    decreases count,
{
    if count == 0 || submission is Ready {
        (task, Ok(submission))
    } else {
        match submission.after_reply(task, services(submission.next_action(task))) {
            (task, Ok(next)) => run_with(task, next, services, (count - 1) as nat),
            (task, Err(error)) => (task, Err(error)),
        }
    }
}

/// How the on-chain leg goes on from the outcome of a step.
spec fn resume_with(
    task: SettleInternalMatchTask,
    outcome: Result<Submission, SettleInternalMatchTaskErrorView>,
    services: Services,
    count: nat,
) -> (SettleInternalMatchTask, Result<Submission, SettleInternalMatchTaskErrorView>) {
    match outcome {
        Ok(submission) => run_with(task, submission, services, count),
        Err(error) => (task, Err(error)),
    }
}

/// Whether services answer lookups by what is on a chain, and the calls that fetch
/// Merkle proofs with success.
pub open spec fn serve_chain(services: Services, chain: Set<Commitment>) -> bool {
    &&& forall|commitment: Commitment| #[trigger]
        services(Action::FindCommitment { commitment }) is Ok <==> chain.contains(commitment)
    &&& forall|action: Action|
        action is SyncIntentProof || action is SyncBalanceProof ==> #[trigger] services(action)
            == Ok::<Reply, SettleInternalMatchTaskError>(Reply::Done)
}

/// At most three lookups tell what the chain has of a party.
proof fn lemma_leg_is_looked_up(
    task: SettleInternalMatchTask,
    transitions: Transitions,
    party: PartyId,
    services: Services,
    chain: Set<Commitment>,
    count: nat,
) -> (used: nat)
    requires
        serve_chain(services, chain),
        transitions.of(party).order_after.ring != PrivacyRing::Ring0,
        count >= 3,
    ensures
        used <= 3,
        run_with(
            task,
            Submission::Proving { transitions, party, lookup: Lookup::Order },
            services,
            count,
        ) == resume_with(
            task,
            Submission::once_first_leg(
                transitions,
                party,
                FirstLeg::Known { finalized: committed_on_chain(transitions.of(party), chain) },
            ),
            services,
            (count - used) as nat,
        ),
{
    reveal_with_fuel(run_with, 4);
    let transition = transitions.of(party);
    let order = Submission::Proving { transitions, party, lookup: Lookup::Order };
    assert(order.next_action(task) == Action::FindCommitment {
        commitment: transition.order_after.commitment,
    });
    if transition.order_after.ring == PrivacyRing::Ring2 && chain.contains(
        transition.order_after.commitment,
    ) {
        let input_found = chain.contains(transition.input_balance_after->0.commitment);
        let input = Submission::Proving { transitions, party, lookup: Lookup::InputBalance };
        let output = Submission::Proving {
            transitions,
            party,
            lookup: Lookup::OutputBalance { input_found },
        };
        assert(input.next_action(task) == Action::FindCommitment {
            commitment: transition.input_balance_after->0.commitment,
        });
        assert(output.next_action(task) == Action::FindCommitment {
            commitment: transition.output_balance_after->0.commitment,
        });
        assert(run_with(task, order, services, count) == run_with(
            task,
            input,
            services,
            (count - 1) as nat,
        ));
        assert(run_with(task, input, services, (count - 1) as nat) == run_with(
            task,
            output,
            services,
            (count - 2) as nat,
        ));
        3
    } else {
        1
    }
}

/// Fetching the Merkle proofs that are left ends the on-chain leg.
proof fn lemma_proofs_are_synced(
    task: SettleInternalMatchTask,
    transitions: Transitions,
    done: usize,
    services: Services,
    chain: Set<Commitment>,
    count: nat,
)
    requires
        serve_chain(services, chain),
        done < full_sync_plan(transitions).len(),
        count >= full_sync_plan(transitions).len() - done,
    ensures
        run_with(task, Submission::Syncing { transitions, done }, services, count) == (
            task,
            Ok::<Submission, SettleInternalMatchTaskErrorView>(Submission::Ready { transitions }),
        ),
    decreases full_sync_plan(transitions).len() - done,
{
    lemma_sync_plan(transitions);
    let syncing = Submission::Syncing { transitions, done };
    assert(syncing.next_action(task) == full_sync_plan(transitions)[done as int]);
    assert(services(syncing.next_action(task)) is Ok);
    if done + 1 < full_sync_plan(transitions).len() {
        lemma_proofs_are_synced(
            task,
            transitions,
            (done + 1) as usize,
            services,
            chain,
            (count - 1) as nat,
        );
    } else {
        reveal_with_fuel(run_with, 2);
    }
}

/// With services that answer by what is on a chain, a recovered settlement ends its
/// on-chain leg, with the persisted transitions, if the chain holds all that the
/// settlement commits to for both parties, and is refused if it does not.
pub proof fn law_recovery_verdict(
    task: SettleInternalMatchTask,
    transitions: Transitions,
    services: Services,
    chain: Set<Commitment>,
)
    requires
        transitions.planned_by(task),
        transitions.party0.order_after.ring == PrivacyRing::Ring2
            ==> transitions.party0.input_balance_after is Some
            && transitions.party0.output_balance_after is Some,
        transitions.party1.order_after.ring == PrivacyRing::Ring2
            ==> transitions.party1.input_balance_after is Some
            && transitions.party1.output_balance_after is Some,
        serve_chain(services, chain),
    ensures
        ({
            let outcome = match Submission::begin(task) {
                Ok(submission) => run_with(task, submission, services, 12),
                Err(error) => (task, Err(error)),
            };
            outcome == (
                task,
                if committed_on_chain(transitions.party0, chain) && committed_on_chain(
                    transitions.party1,
                    chain,
                ) {
                    Ok::<Submission, SettleInternalMatchTaskErrorView>(
                        Submission::Ready { transitions },
                    )
                } else {
                    Err(not_finalized())
                },
            )
        }),
{
    lemma_sync_plan(transitions);
    if transitions.party0.order_after.ring != PrivacyRing::Ring0 {
        let used0 = lemma_leg_is_looked_up(
            task,
            transitions,
            PartyId::Party0,
            services,
            chain,
            12,
        );
        if committed_on_chain(transitions.party0, chain) && transitions.party1.order_after.ring
            != PrivacyRing::Ring0 {
            let left = (12 - used0) as nat;
            let used1 = lemma_leg_is_looked_up(
                task,
                transitions,
                PartyId::Party1,
                services,
                chain,
                left,
            );
            if committed_on_chain(transitions.party1, chain) {
                lemma_proofs_are_synced(
                    task,
                    transitions,
                    0,
                    services,
                    chain,
                    (left - used1) as nat,
                );
            }
        }
    }
}

/// A plan that lacks a balance to which it commits in the second ring cannot be proven, and
/// is refused before anything is looked up.
pub proof fn law_plan_without_its_balances_is_refused(
    task: SettleInternalMatchTask,
    transitions: Transitions,
    party: PartyId,
)
    requires
        transitions.planned_by(task),
        transitions.of(party).order_after.ring == PrivacyRing::Ring2,
        transitions.of(party).input_balance_after is None || transitions.of(
            party,
        ).output_balance_after is None,
    ensures
        Submission::begin(task) == Err::<Submission, SettleInternalMatchTaskErrorView>(
            not_finalized(),
        ),
        !has_committed_balances(transitions.of(party)),
{
}

/// Whether services answer every call with success, and with what the call asks for.
pub open spec fn serve_all(services: Services) -> bool {
    forall|action: Action| #[trigger]
        services(action) matches Ok(reply) && action.answered_by(reply)
}

/// A submission whose calls are all answered comes to its end.
proof fn lemma_served_submission_ends(
    task: SettleInternalMatchTask,
    submission: Submission,
    services: Services,
    count: nat,
)
    requires
        serve_all(services),
        submission.well_formed(task),
        !(submission is Proving || submission is Syncing),
        calls_left(submission) <= count,
    ensures
        run_with(task, submission, services, count).1 matches Ok(end) && end is Ready,
    decreases count,
{
    if !(submission is Ready) {
        let reply = services(submission.next_action(task));
        lemma_reply_takes_a_call(task, submission, reply);
        submission.lemma_step_keeps_well_formed(task, reply);
        let (then, next) = submission.after_reply(task, reply);
        assert(next is Ok);
        lemma_served_submission_ends(then, next->Ok_0, services, (count - 1) as nat);
    }
}

/// A fresh settlement is submitted, and its on-chain leg comes to its end within seventeen
/// calls, where the services answer all that they are asked.
pub proof fn law_served_submission_ends(task: SettleInternalMatchTask, services: Services)
    requires
        task.task_state is SubmittingTx,
        !task.restored_from_queue,
        serve_all(services),
    ensures
        Submission::begin(task) matches Ok(submission) && (run_with(
            task,
            submission,
            services,
            17,
        ).1 matches Ok(end) && end is Ready),
{
    Submission::lemma_begin_is_well_formed(task);
    lemma_served_submission_ends(task, Submission::begin(task)->Ok_0, services, 17);
}

/// The Merkle proofs that a run takes from the receipt are those of the transitions with
/// which it ends: for each party the updated order and, if and only if that order is of
/// the second ring, the party's account with both balances after the settlement.
pub proof fn law_receipt_proofs_are_those_of_the_outcome(
    task: SettleInternalMatchTask,
    replies: Replies,
    index: nat,
    count: nat,
    party0: ReceiptProofs,
    party1: ReceiptProofs,
    now: SettleInternalMatchTask,
    transitions: Transitions,
)
    requires
        task.task_state is SubmittingTx,
        calls(task, replies, index, Action::StoreReceiptProofs { party0, party1 }),
        reached(task, replies, count) == Some((now, Submission::Ready { transitions })),
    ensures
        index + 1 == count,
        party0 == proofs_in_receipt(transitions.party0),
        party1 == proofs_in_receipt(transitions.party1),
        transitions.party0.account_id == task.account_id,
        transitions.party1.account_id == task.other_account_id,
{
    law_run_keeps_invariant(task, replies, index);
    law_run_keeps_invariant(task, replies, count);
    law_submission_starts_from_local_states(task, replies, count, now, transitions);
    let (then, submission) = reached(task, replies, index)->0;
    assert(submission is StoringProofs);
    if count < index {
        lemma_stages_advance(task, replies, count, index);
    } else if index < count {
        if index + 1 < count {
            lemma_stages_advance(task, replies, index + 1, count);
        }
        lemma_last_reply(task, replies, index + 1);
        assert(point(task, replies, index + 1) is Ready);
        if index + 1 < count {
            if index + 2 < count {
                lemma_stages_advance(task, replies, index + 2, count);
            }
            lemma_last_reply(task, replies, index + 2);
        }
        assert(then.receipt_proofs_of(PartyId::Party0) == proofs_in_receipt(transitions.party0));
        assert(then.receipt_proofs_of(PartyId::Party1) == proofs_in_receipt(transitions.party1));
    }
}

} // verus!
