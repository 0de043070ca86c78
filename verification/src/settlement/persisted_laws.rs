//! What holds of the persisted forms of settlement data.
use vstd::prelude::*;

use crate::account::{Balance, BalanceView, Order, OrderView, PrivacyRing};
use crate::ids::uuid_text;
use crate::json::{no_entries, Json};
use crate::settlement::party::{
    lemma_transition_keys, PartyLocalState, PartyStateTransition, PartyStateTransitionView,
};
use crate::settlement::state::{
    lemma_names, phase_order, SettleInternalMatchTaskState, SettleInternalMatchTaskStateView,
};

verus! {

/// The rings are named by their number.
pub proof fn law_rings_are_named_by_number(ring: PrivacyRing)
    ensures
        ring.spec_name() =~= seq![
            'R',
            'i',
            'n',
            'g',
            match ring {
                PrivacyRing::Ring0 => '0',
                PrivacyRing::Ring1 => '1',
                PrivacyRing::Ring2 => '2',
                PrivacyRing::Ring3 => '3',
            },
        ],
        PrivacyRing::spec_named(ring.spec_name()) == Some(ring),
{
    reveal_strlit("Ring0");
    reveal_strlit("Ring1");
    reveal_strlit("Ring2");
    reveal_strlit("Ring3");
    assert("Ring0"@[4] == '0' && "Ring1"@[4] == '1' && "Ring2"@[4] == '2' && "Ring3"@[4] == '3');
}

/// A text names a ring only if it is that ring's name.
pub proof fn law_only_names_of_rings_are_read(name: Seq<char>)
    ensures
        PrivacyRing::spec_named(name) matches Some(ring) ==> ring.spec_name() == name,
{
}

/// The keys of persisted orders and balances differ from one another.
proof fn lemma_keys()
    ensures
        "id"@.len() == 2,
        "ring"@.len() == 4,
        "ring"@[0] == 'r',
        "input_token"@.len() == 11,
        "output_token"@.len() == 12,
        "commitment"@.len() == 10,
        "details"@.len() == 7,
        "mint"@.len() == 4,
        "mint"@[0] == 'm',
{
    reveal_strlit("id");
    reveal_strlit("ring");
    reveal_strlit("input_token");
    reveal_strlit("output_token");
    reveal_strlit("commitment");
    reveal_strlit("details");
    reveal_strlit("mint");
}

/// An order is persisted with each of its fields under the name of the field.
pub proof fn law_order_is_persisted_by_field(order: OrderView)
    ensures
        order.json() matches Json::Object(entries, keys) && {
            &&& entries["id"@] == Json::Text(uuid_text(order.id))
            &&& entries["ring"@] == Json::Text(order.ring.spec_name())
            &&& entries["input_token"@] == Json::Text(order.input_token)
            &&& entries["output_token"@] == Json::Text(order.output_token)
            &&& entries["commitment"@] == Json::Text(order.commitment)
            &&& entries["details"@] == Json::Text(order.details)
            &&& keys == seq![
                "id"@,
                "ring"@,
                "input_token"@,
                "output_token"@,
                "commitment"@,
                "details"@,
            ]
            &&& forall|key: Seq<char>| #[trigger] entries.dom().contains(key) <==> keys.contains(key)
        },
{
    lemma_keys();
    let keys = order.json()->Object_1;
    assert(keys[0] == "id"@);
    assert(keys[1] == "ring"@);
    assert(keys[2] == "input_token"@);
    assert(keys[3] == "output_token"@);
    assert(keys[4] == "commitment"@);
    assert(keys[5] == "details"@);
}

/// A balance is persisted with each of its fields under the name of the field.
pub proof fn law_balance_is_persisted_by_field(balance: BalanceView)
    ensures
        balance.json() matches Json::Object(entries, keys) && {
            &&& entries["mint"@] == Json::Text(balance.mint)
            &&& entries["commitment"@] == Json::Text(balance.commitment)
            &&& entries["details"@] == Json::Text(balance.details)
            &&& keys == seq![
                "mint"@,
                "commitment"@,
                "details"@,
            ]
            &&& forall|key: Seq<char>| #[trigger] entries.dom().contains(key) <==> keys.contains(key)
        },
{
    lemma_keys();
    let keys = balance.json()->Object_1;
    assert(keys[0] == "mint"@);
    assert(keys[1] == "commitment"@);
    assert(keys[2] == "details"@);
}

/// An order may be persisted as an array of its fields in their order, and is read alike.
pub proof fn law_order_may_be_an_array(
    id: Json,
    ring: Json,
    input_token: Json,
    output_token: Json,
    commitment: Json,
    details: Json,
    keys: Seq<Seq<char>>,
)
    ensures
        OrderView::from_json(
            Json::Array(seq![id, ring, input_token, output_token, commitment, details]),
        ) == OrderView::from_json(
            Json::Object(
                map![
                    "id"@ => id,
                    "ring"@ => ring,
                    "input_token"@ => input_token,
                    "output_token"@ => output_token,
                    "commitment"@ => commitment,
                    "details"@ => details,
                ],
                keys,
            ),
        ),
{
    lemma_keys();
}

/// A balance may be persisted as an array of its fields in their order, and is read alike.
pub proof fn law_balance_may_be_an_array(
    mint: Json,
    commitment: Json,
    details: Json,
    keys: Seq<Seq<char>>,
)
    ensures
        BalanceView::from_json(Json::Array(seq![mint, commitment, details])) == BalanceView::from_json(
            Json::Object(
                map![
                    "mint"@ => mint,
                    "commitment"@ => commitment,
                    "details"@ => details,
                ],
                keys,
            ),
        ),
{
    lemma_keys();
}

/// An order and a balance are read only where every field is there, and each is a text.
pub proof fn law_records_are_read_whole(json: Json)
    ensures
        OrderView::from_json(json) is Some ==> match json {
            Json::Object(entries, _) => {
                &&& entries.dom().contains("id"@) && entries["id"@] is Text
                &&& entries.dom().contains("ring"@) && entries["ring"@] is Text
                &&& entries.dom().contains("input_token"@) && entries["input_token"@] is Text
                &&& entries.dom().contains("output_token"@) && entries["output_token"@] is Text
                &&& entries.dom().contains("commitment"@) && entries["commitment"@] is Text
                &&& entries.dom().contains("details"@) && entries["details"@] is Text
            },
            Json::Array(items) => items.len() == 6,
            _ => false,
        },
        BalanceView::from_json(json) is Some ==> match json {
            Json::Object(entries, _) => {
                &&& entries.dom().contains("mint"@) && entries["mint"@] is Text
                &&& entries.dom().contains("commitment"@) && entries["commitment"@] is Text
                &&& entries.dom().contains("details"@) && entries["details"@] is Text
            },
            Json::Array(items) => items.len() == 3,
            _ => false,
        },
{
}

/// A transition is persisted with each of its fields under the name of the field, and a
/// balance that is not locally managed as `null`.
pub proof fn law_transition_is_persisted_by_field(transition: PartyStateTransitionView)
    ensures
        transition.json() matches Json::Object(entries, keys) && {
            &&& entries["account_id"@] == Json::Text(uuid_text(transition.account_id))
            &&& entries["order_id"@] == Json::Text(uuid_text(transition.order_id))
            &&& entries["order_before"@] == transition.order_before.json()
            &&& entries["order_after"@] == transition.order_after.json()
            &&& entries["input_balance_before"@] == match transition.input_balance_before {
                Some(balance) => balance.json(),
                None => Json::Null,
            }
            &&& entries["input_balance_after"@] == match transition.input_balance_after {
                Some(balance) => balance.json(),
                None => Json::Null,
            }
            &&& entries["output_balance_before"@] == match transition.output_balance_before {
                Some(balance) => balance.json(),
                None => Json::Null,
            }
            &&& entries["output_balance_after"@] == match transition.output_balance_after {
                Some(balance) => balance.json(),
                None => Json::Null,
            }
        },
{
    lemma_transition_keys();
    reveal(PartyStateTransitionView::json);
}

/// A transition may be persisted as an array of its fields in their order, and is read
/// alike.
pub proof fn law_transition_may_be_an_array(
    account_id: Json,
    order_id: Json,
    order_before: Json,
    order_after: Json,
    input_balance_before: Json,
    input_balance_after: Json,
    output_balance_before: Json,
    output_balance_after: Json,
    keys: Seq<Seq<char>>,
)
    ensures
        PartyStateTransitionView::from_json(
            Json::Array(
                seq![
                    account_id,
                    order_id,
                    order_before,
                    order_after,
                    input_balance_before,
                    input_balance_after,
                    output_balance_before,
                    output_balance_after,
                ],
            ),
        ) == PartyStateTransitionView::from_json(
            Json::Object(
                map![
                    "account_id"@ => account_id,
                    "order_id"@ => order_id,
                    "order_before"@ => order_before,
                    "order_after"@ => order_after,
                    "input_balance_before"@ => input_balance_before,
                    "input_balance_after"@ => input_balance_after,
                    "output_balance_before"@ => output_balance_before,
                    "output_balance_after"@ => output_balance_after,
                ],
                keys,
            ),
        ),
{
    lemma_transition_keys();
    reveal(PartyStateTransitionView::from_json);
}

/// A balance that a persisted transition does not mention is one that is not locally
/// managed, as one that is `null`. No other field may be missing.
pub proof fn law_missing_balance_is_none(entries: Map<Seq<char>, Json>, keys: Seq<Seq<char>>)
    ensures
        PartyStateTransitionView::from_json(Json::Object(entries.remove("input_balance_before"@), keys))
            == PartyStateTransitionView::from_json(
            Json::Object(entries.insert("input_balance_before"@, Json::Null), keys),
        ),
        PartyStateTransitionView::from_json(Json::Object(entries.remove("input_balance_after"@), keys))
            == PartyStateTransitionView::from_json(
            Json::Object(entries.insert("input_balance_after"@, Json::Null), keys),
        ),
        PartyStateTransitionView::from_json(Json::Object(entries.remove("output_balance_before"@), keys))
            == PartyStateTransitionView::from_json(
            Json::Object(entries.insert("output_balance_before"@, Json::Null), keys),
        ),
        PartyStateTransitionView::from_json(Json::Object(entries.remove("output_balance_after"@), keys))
            == PartyStateTransitionView::from_json(
            Json::Object(entries.insert("output_balance_after"@, Json::Null), keys),
        ),
        PartyStateTransitionView::from_json(Json::Object(entries, keys)) is Some ==> {
            &&& entries.dom().contains("account_id"@)
            &&& entries.dom().contains("order_id"@)
            &&& entries.dom().contains("order_before"@)
            &&& entries.dom().contains("order_after"@)
        },
{
    lemma_transition_keys();
    reveal(PartyStateTransitionView::from_json);
}

/// The states of a settlement come in this order: pending, submitting (with or without a
/// plan), updating the local state, updating the validity proofs, completed.
pub proof fn law_states_come_in_order(
    party0: PartyStateTransitionView,
    party1: PartyStateTransitionView,
    updating0: PartyStateTransitionView,
    updating1: PartyStateTransitionView,
)
    ensures
        ({
            let pending = SettleInternalMatchTaskStateView::Pending.phase();
            let submitting = SettleInternalMatchTaskStateView::SubmittingTx.phase();
            let planned = SettleInternalMatchTaskStateView::SubmittingTxPlanned {
                party0,
                party1,
            }.phase();
            let updating = SettleInternalMatchTaskStateView::UpdatingState {
                party0: updating0,
                party1: updating1,
            }.phase();
            let proving = SettleInternalMatchTaskStateView::UpdatingValidityProofs.phase();
            let completed = SettleInternalMatchTaskStateView::Completed.phase();
            &&& pending < submitting < updating < proving < completed
            &&& planned == submitting
        }),
{
}

/// A state is named as users know it, whatever its payload.
pub proof fn law_states_are_named(state: SettleInternalMatchTaskStateView)
    ensures
        match state {
            SettleInternalMatchTaskStateView::Pending => state.name() == "Pending"@,
            SettleInternalMatchTaskStateView::SubmittingTx => state.name() == "SubmittingTx"@,
            SettleInternalMatchTaskStateView::SubmittingTxPlanned { .. } => state.name()
                == "SubmittingTx"@,
            SettleInternalMatchTaskStateView::UpdatingState { .. } => state.name()
                == "UpdatingState"@,
            SettleInternalMatchTaskStateView::UpdatingValidityProofs => state.name()
                == "UpdatingValidityProofs"@,
            SettleInternalMatchTaskStateView::Completed => state.name() == "Completed"@,
        },
{
}

/// A state without a payload is persisted as its name. One with a payload is persisted as
/// an object with the transitions of both parties, each under its party's name, under the
/// state's own tag.
pub proof fn law_state_is_persisted_by_name(state: SettleInternalMatchTaskStateView)
    ensures
        match state {
            SettleInternalMatchTaskStateView::UpdatingState { party0, party1 } => {
                &&& state.json() matches Json::Object(entries, keys)
                &&& keys == seq!["UpdatingState"@]
                &&& entries["UpdatingState"@] matches Json::Object(parties, _)
                &&& parties["party0"@] == party0.json()
                &&& parties["party1"@] == party1.json()
            },
            SettleInternalMatchTaskStateView::SubmittingTxPlanned { party0, party1 } => {
                &&& state.json() matches Json::Object(entries, keys)
                &&& keys == seq!["SubmittingTxPlanned"@]
                &&& entries["SubmittingTxPlanned"@] matches Json::Object(parties, _)
                &&& parties["party0"@] == party0.json()
                &&& parties["party1"@] == party1.json()
            },
            _ => state.json() == Json::Text(state.name()),
        },
{
    lemma_names();
}

/// A name, and an object with `null` under that name, are read alike: as the state without
/// a payload that has the name, if there is one.
pub proof fn law_state_may_be_a_name_or_an_object(name: Seq<char>)
    ensures
        SettleInternalMatchTaskStateView::from_json(Json::Text(name))
            == SettleInternalMatchTaskStateView::from_json(
            Json::Object(no_entries().insert(name, Json::Null), seq![name]),
        ),
        SettleInternalMatchTaskStateView::from_json(Json::Text(name)) matches Some(state) ==> {
            &&& state.name() == name
            &&& !(state is UpdatingState)
            &&& !(state is SubmittingTxPlanned)
        },
{
    lemma_names();
    assert(no_entries().insert(name, Json::Null).dom() =~= set![name]);
    assert(set![name].len() == 1);
}

/// An object with the transitions of both parties under the tag of a state is read as that
/// state with these transitions; so is one with an array of the two.
pub proof fn law_state_is_read_with_its_transitions(party0: Json, party1: Json)
    ensures
        ({
            let record = Json::Object(
                map!["party0"@ => party0, "party1"@ => party1],
                seq!["party0"@, "party1"@],
            );
            let array = Json::Array(seq![party0, party1]);
            let under = |tag: Seq<char>, json: Json|
                SettleInternalMatchTaskStateView::from_json(
                    Json::Object(no_entries().insert(tag, json), seq![tag]),
                );
            let read0 = PartyStateTransitionView::from_json(party0);
            let read1 = PartyStateTransitionView::from_json(party1);
            &&& under("UpdatingState"@, array) == under("UpdatingState"@, record)
            &&& under("SubmittingTxPlanned"@, array) == under("SubmittingTxPlanned"@, record)
            &&& if read0 is Some && read1 is Some {
                &&& under("UpdatingState"@, record) == Some(
                    SettleInternalMatchTaskStateView::UpdatingState {
                        party0: read0->0,
                        party1: read1->0,
                    },
                )
                &&& under("SubmittingTxPlanned"@, record) == Some(
                    SettleInternalMatchTaskStateView::SubmittingTxPlanned {
                        party0: read0->0,
                        party1: read1->0,
                    },
                )
            } else {
                &&& under("UpdatingState"@, record) is None
                &&& under("SubmittingTxPlanned"@, record) is None
            }
        }),
{
    lemma_names();
    let record = Json::Object(
        map!["party0"@ => party0, "party1"@ => party1],
        seq!["party0"@, "party1"@],
    );
    let array = Json::Array(seq![party0, party1]);
    assert forall|tag: Seq<char>, json: Json| #[trigger]
        no_entries().insert(tag, json).dom().len() == 1 by {
        assert(no_entries().insert(tag, json).dom() =~= set![tag]);
        assert(set![tag].len() == 1);
    }
    assert(!no_entries().insert("SubmittingTxPlanned"@, record).dom().contains("UpdatingState"@));
    assert(!no_entries().insert("SubmittingTxPlanned"@, array).dom().contains("UpdatingState"@));
}

/// A state is read only from its name, or from an object with one entry.
pub proof fn law_state_has_one_tag(json: Json)
    requires
        SettleInternalMatchTaskStateView::from_json(json) is Some,
    ensures
        json is Text || (json matches Json::Object(entries, _) && entries.dom().len() == 1),
{
}

/// The model of an order or a balance has the fields of that.
pub proof fn law_records_are_modelled_by_field(order: Order, balance: Balance)
    ensures
        order@.id == order.id,
        order@.ring == order.ring,
        order@.input_token == order.input_token@,
        order@.output_token == order.output_token@,
        order@.commitment == order.commitment@,
        order@.details == order.details@,
        balance@.mint == balance.mint@,
        balance@.commitment == balance.commitment@,
        balance@.details == balance.details@,
{
}

/// The model of a transition or a local state has the fields of that.
pub proof fn law_local_states_are_modelled_by_field(
    transition: PartyStateTransition,
    state: PartyLocalState,
)
    ensures
        transition@.account_id == transition.account_id,
        transition@.order_id == transition.order_id,
        transition@.order_before == transition.order_before@,
        transition@.order_after == transition.order_after@,
        transition@.input_balance_before == modelled(transition.input_balance_before),
        transition@.input_balance_after == modelled(transition.input_balance_after),
        transition@.output_balance_before == modelled(transition.output_balance_before),
        transition@.output_balance_after == modelled(transition.output_balance_after),
        state@.account_id == state.account_id,
        state@.order_id == state.order_id,
        state@.order == state.order@,
        state@.input_balance == modelled(state.input_balance),
        state@.output_balance == modelled(state.output_balance),
        transition@.before().order == transition@.order_before,
        transition@.before().input_balance == transition@.input_balance_before,
        transition@.before().output_balance == transition@.output_balance_before,
        transition@.after().order == transition@.order_after,
        transition@.after().input_balance == transition@.input_balance_after,
        transition@.after().output_balance == transition@.output_balance_after,
{
}

/// The model of a balance, where there is one.
pub open spec fn modelled(balance: Option<Balance>) -> Option<BalanceView> {
    if balance is Some {
        Some(balance->0@)
    } else {
        None
    }
}

/// The model of a state is of the same name, and has the transitions of the same parties.
pub proof fn law_states_are_modelled_by_name(state: SettleInternalMatchTaskState)
    ensures
        match state {
            SettleInternalMatchTaskState::Pending => state@ is Pending,
            SettleInternalMatchTaskState::SubmittingTx => state@ is SubmittingTx,
            SettleInternalMatchTaskState::SubmittingTxPlanned { party0, party1 } => state@ == (
            SettleInternalMatchTaskStateView::SubmittingTxPlanned {
                party0: party0@,
                party1: party1@,
            }),
            SettleInternalMatchTaskState::UpdatingState { party0, party1 } => state@ == (
            SettleInternalMatchTaskStateView::UpdatingState { party0: party0@, party1: party1@ }),
            SettleInternalMatchTaskState::UpdatingValidityProofs => {
                state@ is UpdatingValidityProofs
            },
            SettleInternalMatchTaskState::Completed => state@ is Completed,
        },
{
}

/// Of two states, that of the earlier phase comes first.
pub proof fn law_states_are_ordered_by_phase(
    state: SettleInternalMatchTaskStateView,
    other: SettleInternalMatchTaskStateView,
)
    ensures
        phase_order(state, other) is Less <==> state.phase() < other.phase(),
        phase_order(state, other) is Equal <==> state.phase() == other.phase(),
        phase_order(state, other) is Greater <==> state.phase() > other.phase(),
{
}

} // verus!
