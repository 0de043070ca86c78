//! The two parties of a match and what settlement does to their local state.
use vstd::prelude::*;

use crate::account::{Balance, BalanceView, Order, OrderView, TokenAddress};
use crate::ids::{parse_uuid, print_uuid, uuid_parsed, uuid_text, AccountId, OrderId};
use crate::json::{
    empty_map, field, field_of, in_braces, insert_entry, is_null, map_keys, nests_within,
    null_value, object_value, quoted, text_field, text_in, text_value, value_json, value_text,
    with_entry, Json,
};

verus! {

/// A party of an internal match.
#[derive(Clone, Copy, Debug, PartialEq, Eq, Structural)]
pub enum PartyId {
    /// The party whose order initiated the match
    Party0,
    /// The counterparty
    Party1,
}

/// What one party of a match owes and receives.
#[derive(Debug)]
pub struct SettlementObligation {
    /// The token that the party pays
    pub input_token: TokenAddress,
    /// The token that the party receives
    pub output_token: TokenAddress,
    /// The amount that the party pays
    pub amount_in: u128,
    /// The amount that the party receives
    pub amount_out: u128,
}

/// The result of a match.
#[derive(Debug)]
pub struct MatchResult {
    /// What the initiating party owes and receives
    pub party0_obligation: SettlementObligation,
    /// What the counterparty owes and receives
    pub party1_obligation: SettlementObligation,
}

/// The exact before/after local state transition for one party in a settled
/// match.
#[derive(Debug)]
pub struct PartyStateTransition {
    /// The account that owns the order
    pub account_id: AccountId,
    /// The order that is updated
    pub order_id: OrderId,
    /// The local order before the transition
    pub order_before: Order,
    /// The local order after the transition
    pub order_after: Order,
    /// The input balance before the transition, if locally managed
    pub input_balance_before: Option<Balance>,
    /// The input balance after the transition, if locally managed
    pub input_balance_after: Option<Balance>,
    /// The output balance before the transition, if locally managed
    pub output_balance_before: Option<Balance>,
    /// The output balance after the transition, if locally managed
    pub output_balance_after: Option<Balance>,
}

/// The model of a [`PartyStateTransition`].
pub struct PartyStateTransitionView {
    pub account_id: AccountId,
    pub order_id: OrderId,
    pub order_before: OrderView,
    pub order_after: OrderView,
    pub input_balance_before: Option<BalanceView>,
    pub input_balance_after: Option<BalanceView>,
    pub output_balance_before: Option<BalanceView>,
    pub output_balance_after: Option<BalanceView>,
}

/// The local state of one party, as far as settlement changes it.
#[derive(Debug)]
pub struct PartyLocalState {
    pub account_id: AccountId,
    pub order_id: OrderId,
    pub order: Order,
    pub input_balance: Option<Balance>,
    pub output_balance: Option<Balance>,
}

/// The model of a [`PartyLocalState`].
pub struct PartyLocalStateView {
    pub account_id: AccountId,
    pub order_id: OrderId,
    pub order: OrderView,
    pub input_balance: Option<BalanceView>,
    pub output_balance: Option<BalanceView>,
}

/// The model of a balance that may not be locally managed.
pub open spec fn balance_view(balance: Option<Balance>) -> Option<BalanceView> {
    match balance {
        Some(balance) => Some(balance@),
        None => None,
    }
}

impl View for PartyStateTransition {
    type V = PartyStateTransitionView;

    open spec fn view(&self) -> PartyStateTransitionView {
        PartyStateTransitionView {
            account_id: self.account_id,
            order_id: self.order_id,
            order_before: self.order_before@,
            order_after: self.order_after@,
            input_balance_before: balance_view(self.input_balance_before),
            input_balance_after: balance_view(self.input_balance_after),
            output_balance_before: balance_view(self.output_balance_before),
            output_balance_after: balance_view(self.output_balance_after),
        }
    }
}

impl View for PartyLocalState {
    type V = PartyLocalStateView;

    open spec fn view(&self) -> PartyLocalStateView {
        PartyLocalStateView {
            account_id: self.account_id,
            order_id: self.order_id,
            order: self.order@,
            input_balance: balance_view(self.input_balance),
            output_balance: balance_view(self.output_balance),
        }
    }
}

impl Clone for SettlementObligation {
    fn clone(&self) -> (res: Self)
        ensures
            res == *self,
    {
        SettlementObligation {
            input_token: self.input_token.clone(),
            output_token: self.output_token.clone(),
            amount_in: self.amount_in,
            amount_out: self.amount_out,
        }
    }
}

impl Clone for MatchResult {
    fn clone(&self) -> (res: Self)
        ensures
            res == *self,
    {
        MatchResult {
            party0_obligation: self.party0_obligation.clone(),
            party1_obligation: self.party1_obligation.clone(),
        }
    }
}

impl Clone for PartyStateTransition {
    fn clone(&self) -> (res: Self)
        ensures
            res == *self,
    {
        PartyStateTransition {
            account_id: self.account_id,
            order_id: self.order_id,
            order_before: self.order_before.clone(),
            order_after: self.order_after.clone(),
            input_balance_before: self.input_balance_before.clone(),
            input_balance_after: self.input_balance_after.clone(),
            output_balance_before: self.output_balance_before.clone(),
            output_balance_after: self.output_balance_after.clone(),
        }
    }
}

impl Clone for PartyLocalState {
    fn clone(&self) -> (res: Self)
        ensures
            res == *self,
    {
        PartyLocalState {
            account_id: self.account_id,
            order_id: self.order_id,
            order: self.order.clone(),
            input_balance: self.input_balance.clone(),
            output_balance: self.output_balance.clone(),
        }
    }
}

impl vstd::std_specs::cmp::PartialEqSpecImpl for PartyStateTransition {
    open spec fn obeys_eq_spec() -> bool {
        true
    }

    open spec fn eq_spec(&self, other: &Self) -> bool {
        self@ == other@
    }
}

impl PartialEq for PartyStateTransition {
    fn eq(&self, other: &Self) -> (res: bool) {
        self.account_id == other.account_id && self.order_id == other.order_id && self.order_before
            == other.order_before && self.order_after == other.order_after
            && self.input_balance_before == other.input_balance_before && self.input_balance_after
            == other.input_balance_after && self.output_balance_before
            == other.output_balance_before && self.output_balance_after
            == other.output_balance_after
    }
}

impl Eq for PartyStateTransition {

}

impl vstd::std_specs::cmp::PartialEqSpecImpl for PartyLocalState {
    open spec fn obeys_eq_spec() -> bool {
        true
    }

    open spec fn eq_spec(&self, other: &Self) -> bool {
        self@ == other@
    }
}

impl PartialEq for PartyLocalState {
    fn eq(&self, other: &Self) -> (res: bool) {
        self.account_id == other.account_id && self.order_id == other.order_id && self.order
            == other.order && self.input_balance == other.input_balance && self.output_balance
            == other.output_balance
    }
}

impl Eq for PartyLocalState {

}

impl PartyStateTransitionView {
    /// The local state from which the transition starts.
    pub open spec fn before(self) -> PartyLocalStateView {
        PartyLocalStateView {
            account_id: self.account_id,
            order_id: self.order_id,
            order: self.order_before,
            input_balance: self.input_balance_before,
            output_balance: self.output_balance_before,
        }
    }

    /// The local state to which the transition leads.
    pub open spec fn after(self) -> PartyLocalStateView {
        PartyLocalStateView {
            account_id: self.account_id,
            order_id: self.order_id,
            order: self.order_after,
            input_balance: self.input_balance_after,
            output_balance: self.output_balance_after,
        }
    }
}

impl PartyLocalState {
    /// The local state from which a transition starts.
    pub fn from_before(transition: &PartyStateTransition) -> (res: Self)
        ensures
            res@ == transition@.before(),
    {
        PartyLocalState {
            account_id: transition.account_id,
            order_id: transition.order_id,
            order: transition.order_before.clone(),
            input_balance: transition.input_balance_before.clone(),
            output_balance: transition.output_balance_before.clone(),
        }
    }

    /// The local state to which a transition leads.
    pub fn from_after(transition: &PartyStateTransition) -> (res: Self)
        ensures
            res@ == transition@.after(),
    {
        PartyLocalState {
            account_id: transition.account_id,
            order_id: transition.order_id,
            order: transition.order_after.clone(),
            input_balance: transition.input_balance_after.clone(),
            output_balance: transition.output_balance_after.clone(),
        }
    }
}

/// The persisted form of a balance that may not be locally managed.
pub open spec fn balance_json(balance: Option<BalanceView>) -> Json {
    match balance {
        Some(balance) => balance.json(),
        None => Json::Null,
    }
}

/// The text of the persisted form of a balance that may not be locally managed.
pub open spec fn balance_text(balance: Option<BalanceView>) -> Seq<char> {
    match balance {
        Some(balance) => balance.text(),
        None => "null"@,
    }
}

/// The balance that a field of a persisted record stands for: `Some(None)` where
/// the field says, or by its absence means, that no balance is locally managed,
/// and `None` where it stands for nothing.
pub open spec fn balance_in(field: Option<Json>) -> Option<Option<BalanceView>> {
    match field {
        None => Some(None),
        Some(Json::Null) => Some(None),
        Some(json) => match BalanceView::from_json(json) {
            Some(balance) => Some(Some(balance)),
            None => None,
        },
    }
}

/// The order that a field of a persisted record stands for.
pub open spec fn order_in(field: Option<Json>) -> Option<OrderView> {
    match field {
        Some(json) => OrderView::from_json(json),
        None => None,
    }
}

/// The identifier that a field of a persisted record stands for.
pub open spec fn id_in(field: Option<Json>) -> Option<u128> {
    match text_in(field) {
        Some(text) => uuid_parsed(text),
        None => None,
    }
}

/// The persisted form of a balance that may not be locally managed.
fn balance_to_json(balance: &Option<Balance>) -> (res: serde_json::Value)
    ensures
        value_json(res) == balance_json(balance_view(*balance)),
        value_text(res) == balance_text(balance_view(*balance)),
        balance_in(Some(value_json(res))) == Some(balance_view(*balance)),
        nests_within(value_json(res), 1),
{
    match balance {
        Some(balance) => balance.to_json(),
        None => null_value(),
    }
}

/// Reads a field that holds a balance.
fn balance_field(
    value: &serde_json::Value,
    key: &str,
    index: usize,
    total: usize,
) -> (res: Option<Option<Balance>>)
    ensures
        match (res, balance_in(field_of(value_json(*value), key@, index as int, total as int))) {
            (Some(balance), Some(expected)) => balance_view(balance) == expected,
            (None, None) => true,
            _ => false,
        },
{
    match field(value, key, index, total) {
        Some(found) => if is_null(found) {
            Some(None)
        } else {
            match Balance::from_json(found) {
                Some(balance) => Some(Some(balance)),
                None => None,
            }
        },
        None => Some(None),
    }
}

/// Reads a field that holds an order.
fn order_field(
    value: &serde_json::Value,
    key: &str,
    index: usize,
    total: usize,
) -> (res: Option<Order>)
    ensures
        match (res, order_in(field_of(value_json(*value), key@, index as int, total as int))) {
            (Some(order), Some(expected)) => order@ == expected,
            (None, None) => true,
            _ => false,
        },
{
    match field(value, key, index, total) {
        Some(found) => Order::from_json(found),
        None => None,
    }
}

/// Reads a field that holds an identifier.
fn id_field(
    value: &serde_json::Value,
    key: &str,
    index: usize,
    total: usize,
) -> (res: Option<u128>)
    ensures
        res == id_in(field_of(value_json(*value), key@, index as int, total as int)),
{
    match text_field(value, key, index, total) {
        Some(text) => parse_uuid(text.as_str()),
        None => None,
    }
}

impl PartyStateTransitionView {
    /// The persisted form of the transition.
    #[verifier::opaque]
    pub open spec fn json(self) -> Json {
        Json::Object(
            map![
                "account_id"@ => Json::Text(uuid_text(self.account_id)),
                "order_id"@ => Json::Text(uuid_text(self.order_id)),
                "order_before"@ => self.order_before.json(),
                "order_after"@ => self.order_after.json(),
                "input_balance_before"@ => balance_json(self.input_balance_before),
                "input_balance_after"@ => balance_json(self.input_balance_after),
                "output_balance_before"@ => balance_json(self.output_balance_before),
                "output_balance_after"@ => balance_json(self.output_balance_after),
            ],
            seq![
                "account_id"@,
                "order_id"@,
                "order_before"@,
                "order_after"@,
                "input_balance_before"@,
                "input_balance_after"@,
                "output_balance_before"@,
                "output_balance_after"@,
            ],
        )
    }

    /// The text of the persisted form.
    #[verifier::opaque]
    pub open spec fn text(self) -> Seq<char> {
        let entries = with_entry(seq![], "account_id"@, quoted(uuid_text(self.account_id)));
        let entries = with_entry(entries, "order_id"@, quoted(uuid_text(self.order_id)));
        let entries = with_entry(entries, "order_before"@, self.order_before.text());
        let entries = with_entry(entries, "order_after"@, self.order_after.text());
        let entries = with_entry(
            entries,
            "input_balance_before"@,
            balance_text(self.input_balance_before),
        );
        let entries = with_entry(
            entries,
            "input_balance_after"@,
            balance_text(self.input_balance_after),
        );
        let entries = with_entry(
            entries,
            "output_balance_before"@,
            balance_text(self.output_balance_before),
        );
        let entries = with_entry(
            entries,
            "output_balance_after"@,
            balance_text(self.output_balance_after),
        );
        in_braces(entries)
    }

    /// The transition that a persisted form stands for.
    #[verifier::opaque]
    pub open spec fn from_json(json: Json) -> Option<PartyStateTransitionView> {
        match (
            id_in(field_of(json, "account_id"@, 0, 8)),
            id_in(field_of(json, "order_id"@, 1, 8)),
            order_in(field_of(json, "order_before"@, 2, 8)),
            order_in(field_of(json, "order_after"@, 3, 8)),
            balance_in(field_of(json, "input_balance_before"@, 4, 8)),
            balance_in(field_of(json, "input_balance_after"@, 5, 8)),
            balance_in(field_of(json, "output_balance_before"@, 6, 8)),
            balance_in(field_of(json, "output_balance_after"@, 7, 8)),
        ) {
            (
                Some(account_id),
                Some(order_id),
                Some(order_before),
                Some(order_after),
                Some(input_balance_before),
                Some(input_balance_after),
                Some(output_balance_before),
                Some(output_balance_after),
            ) => Some(
                PartyStateTransitionView {
                    account_id,
                    order_id,
                    order_before,
                    order_after,
                    input_balance_before,
                    input_balance_after,
                    output_balance_before,
                    output_balance_after,
                },
            ),
            _ => None,
        }
    }
}

/// The keys of a persisted transition differ from one another.
pub(crate) proof fn lemma_transition_keys()
    ensures
        "account_id"@.len() == 10,
        "order_id"@.len() == 8,
        "order_before"@.len() == 12,
        "order_after"@.len() == 11,
        "input_balance_before"@.len() == 20,
        "input_balance_before"@[0] == 'i',
        "input_balance_after"@.len() == 19,
        "output_balance_before"@.len() == 21,
        "output_balance_after"@.len() == 20,
        "output_balance_after"@[0] == 'o',
{
    reveal_strlit("account_id");
    reveal_strlit("order_id");
    reveal_strlit("order_before");
    reveal_strlit("order_after");
    reveal_strlit("input_balance_before");
    reveal_strlit("input_balance_after");
    reveal_strlit("output_balance_before");
    reveal_strlit("output_balance_after");
}

impl PartyStateTransition {
    /// The persisted form of the transition, which [`Self::from_json`] reads back.
    pub fn to_json(&self) -> (res: serde_json::Value)
        ensures
            value_json(res) == self@.json(),
            value_text(res) == self@.text(),
            PartyStateTransitionView::from_json(value_json(res)) == Some(self@),
            nests_within(value_json(res), 2),
    {
        let mut entries = empty_map();
        insert_entry(&mut entries, "account_id".to_owned(), text_value(print_uuid(self.account_id)));
        insert_entry(&mut entries, "order_id".to_owned(), text_value(print_uuid(self.order_id)));
        insert_entry(&mut entries, "order_before".to_owned(), self.order_before.to_json());
        insert_entry(&mut entries, "order_after".to_owned(), self.order_after.to_json());
        insert_entry(
            &mut entries,
            "input_balance_before".to_owned(),
            balance_to_json(&self.input_balance_before),
        );
        insert_entry(
            &mut entries,
            "input_balance_after".to_owned(),
            balance_to_json(&self.input_balance_after),
        );
        insert_entry(
            &mut entries,
            "output_balance_before".to_owned(),
            balance_to_json(&self.output_balance_before),
        );
        insert_entry(
            &mut entries,
            "output_balance_after".to_owned(),
            balance_to_json(&self.output_balance_after),
        );
        proof {
            lemma_transition_keys();
            reveal_with_fuel(nests_within, 3);
            reveal(PartyStateTransitionView::json);
            reveal(PartyStateTransitionView::text);
            reveal(PartyStateTransitionView::from_json);
            assert(map_keys(entries) =~= seq![
                "account_id"@,
                "order_id"@,
                "order_before"@,
                "order_after"@,
                "input_balance_before"@,
                "input_balance_after"@,
                "output_balance_before"@,
                "output_balance_after"@,
            ]);
        }
        object_value(entries)
    }

    /// The transition that a persisted form stands for.
    pub fn from_json(value: &serde_json::Value) -> (res: Option<PartyStateTransition>)
        ensures
            match res {
                Some(transition) => PartyStateTransitionView::from_json(value_json(*value)) == Some(
                    transition@,
                ),
                None => PartyStateTransitionView::from_json(value_json(*value)) is None,
            },
    {
        reveal(PartyStateTransitionView::from_json);
        let account_id: u128 = match id_field(value, "account_id", 0, 8) {
            Some(account_id) => account_id,
            None => return None,
        };
        let order_id: u128 = match id_field(value, "order_id", 1, 8) {
            Some(order_id) => order_id,
            None => return None,
        };
        let order_before = match order_field(value, "order_before", 2, 8) {
            Some(order) => order,
            None => return None,
        };
        let order_after = match order_field(value, "order_after", 3, 8) {
            Some(order) => order,
            None => return None,
        };
        let input_balance_before = match balance_field(value, "input_balance_before", 4, 8) {
            Some(balance) => balance,
            None => return None,
        };
        let input_balance_after = match balance_field(value, "input_balance_after", 5, 8) {
            Some(balance) => balance,
            None => return None,
        };
        let output_balance_before = match balance_field(value, "output_balance_before", 6, 8) {
            Some(balance) => balance,
            None => return None,
        };
        let output_balance_after = match balance_field(value, "output_balance_after", 7, 8) {
            Some(balance) => balance,
            None => return None,
        };
        Some(
            PartyStateTransition {
                account_id,
                order_id,
                order_before,
                order_after,
                input_balance_before,
                input_balance_after,
                output_balance_before,
                output_balance_after,
            },
        )
    }
}

} // verus!
