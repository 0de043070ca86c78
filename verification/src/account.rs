//! Orders and balances, as far as settlement reads them.
use vstd::prelude::*;

use crate::ids::{parse_uuid, print_uuid, uuid_parsed, uuid_text, OrderId};
use crate::json::{
    empty_map, field_of, in_braces, insert_entry, map_keys, nests_within, object_value, quoted,
    text_field, text_in, text_value, value_json, value_text, with_entry, Json,
};

verus! {

/// The address of a token, as text.
pub type TokenAddress = String;

/// The commitment to a piece of darkpool state, as text.
pub type Commitment = String;

/// How private an order is.
#[derive(Clone, Copy, Debug, PartialEq, Eq, Structural)]
pub enum PrivacyRing {
    Ring0,
    Ring1,
    Ring2,
    Ring3,
}

/// Where a balance is held.
#[derive(Clone, Copy, Debug, PartialEq, Eq, Structural)]
pub enum BalanceLocation {
    /// In the owner's own account
    EOA,
    /// In the darkpool
    Darkpool,
}

/// An order.
#[derive(Debug)]
pub struct Order {
    /// The identifier of the order
    pub id: OrderId,
    /// The privacy ring of the order
    pub ring: PrivacyRing,
    /// The token that the order sells
    pub input_token: TokenAddress,
    /// The token that the order buys
    pub output_token: TokenAddress,
    /// The commitment to the order's intent
    pub commitment: Commitment,
    /// All else of the order, in its serialized form
    pub details: String,
}

/// The model of an [`Order`].
pub struct OrderView {
    pub id: OrderId,
    pub ring: PrivacyRing,
    pub input_token: Seq<char>,
    pub output_token: Seq<char>,
    pub commitment: Seq<char>,
    pub details: Seq<char>,
}

/// A balance.
#[derive(Debug)]
pub struct Balance {
    /// The token held
    pub mint: TokenAddress,
    /// The commitment to the balance
    pub commitment: Commitment,
    /// All else of the balance, in its serialized form
    pub details: String,
}

/// The model of a [`Balance`].
pub struct BalanceView {
    pub mint: Seq<char>,
    pub commitment: Seq<char>,
    pub details: Seq<char>,
}

impl PrivacyRing {
    /// Where an order of this ring has its balances.
    pub open spec fn spec_balance_location(self) -> BalanceLocation {
        match self {
            PrivacyRing::Ring0 | PrivacyRing::Ring1 => BalanceLocation::EOA,
            PrivacyRing::Ring2 | PrivacyRing::Ring3 => BalanceLocation::Darkpool,
        }
    }

    /// Where an order of this ring has its balances.
    pub fn balance_location(&self) -> (res: BalanceLocation)
        ensures
            res == self.spec_balance_location(),
    {
        match self {
            PrivacyRing::Ring0 | PrivacyRing::Ring1 => BalanceLocation::EOA,
            PrivacyRing::Ring2 | PrivacyRing::Ring3 => BalanceLocation::Darkpool,
        }
    }
}

impl View for Order {
    type V = OrderView;

    open spec fn view(&self) -> OrderView {
        OrderView {
            id: self.id,
            ring: self.ring,
            input_token: self.input_token@,
            output_token: self.output_token@,
            commitment: self.commitment@,
            details: self.details@,
        }
    }
}

impl View for Balance {
    type V = BalanceView;

    open spec fn view(&self) -> BalanceView {
        BalanceView {
            mint: self.mint@,
            commitment: self.commitment@,
            details: self.details@,
        }
    }
}

impl Clone for Order {
    fn clone(&self) -> (res: Self)
        ensures
            res == *self,
    {
        Order {
            id: self.id,
            ring: self.ring,
            input_token: self.input_token.clone(),
            output_token: self.output_token.clone(),
            commitment: self.commitment.clone(),
            details: self.details.clone(),
        }
    }
}

impl Clone for Balance {
    fn clone(&self) -> (res: Self)
        ensures
            res == *self,
    {
        Balance {
            mint: self.mint.clone(),
            commitment: self.commitment.clone(),
            details: self.details.clone(),
        }
    }
}

impl vstd::std_specs::cmp::PartialEqSpecImpl for Order {
    open spec fn obeys_eq_spec() -> bool {
        true
    }

    open spec fn eq_spec(&self, other: &Self) -> bool {
        self@ == other@
    }
}

impl PartialEq for Order {
    fn eq(&self, other: &Self) -> (res: bool) {
        self.id == other.id && self.ring == other.ring && self.input_token == other.input_token
            && self.output_token == other.output_token && self.commitment == other.commitment
            && self.details == other.details
    }
}

impl Eq for Order {

}

impl vstd::std_specs::cmp::PartialEqSpecImpl for Balance {
    open spec fn obeys_eq_spec() -> bool {
        true
    }

    open spec fn eq_spec(&self, other: &Self) -> bool {
        self@ == other@
    }
}

impl PartialEq for Balance {
    fn eq(&self, other: &Self) -> (res: bool) {
        self.mint == other.mint && self.commitment == other.commitment && self.details
            == other.details
    }
}

impl Eq for Balance {

}

impl PrivacyRing {
    /// The persisted name of the ring.
    pub open spec fn spec_name(self) -> Seq<char> {
        match self {
            PrivacyRing::Ring0 => "Ring0"@,
            PrivacyRing::Ring1 => "Ring1"@,
            PrivacyRing::Ring2 => "Ring2"@,
            PrivacyRing::Ring3 => "Ring3"@,
        }
    }

    /// The ring with the given persisted name.
    pub open spec fn spec_named(name: Seq<char>) -> Option<PrivacyRing> {
        if name == "Ring0"@ {
            Some(PrivacyRing::Ring0)
        } else if name == "Ring1"@ {
            Some(PrivacyRing::Ring1)
        } else if name == "Ring2"@ {
            Some(PrivacyRing::Ring2)
        } else if name == "Ring3"@ {
            Some(PrivacyRing::Ring3)
        } else {
            None
        }
    }

    /// The persisted name of the ring, from which [`Self::named`] finds it again.
    pub fn name(&self) -> (res: String)
        ensures
            res@ == self.spec_name(),
            Self::spec_named(res@) == Some(*self),
    {
        proof {
            reveal_strlit("Ring0");
            reveal_strlit("Ring1");
            reveal_strlit("Ring2");
            reveal_strlit("Ring3");
            assert("Ring0"@[4] == '0' && "Ring1"@[4] == '1' && "Ring2"@[4] == '2' && "Ring3"@[4]
                == '3');
        }
        match self {
            PrivacyRing::Ring0 => "Ring0".to_owned(),
            PrivacyRing::Ring1 => "Ring1".to_owned(),
            PrivacyRing::Ring2 => "Ring2".to_owned(),
            PrivacyRing::Ring3 => "Ring3".to_owned(),
        }
    }

    /// The ring with the given persisted name.
    pub fn named(name: &String) -> (res: Option<PrivacyRing>)
        ensures
            res == Self::spec_named(name@),
    {
        if *name == "Ring0".to_owned() {
            Some(PrivacyRing::Ring0)
        } else if *name == "Ring1".to_owned() {
            Some(PrivacyRing::Ring1)
        } else if *name == "Ring2".to_owned() {
            Some(PrivacyRing::Ring2)
        } else if *name == "Ring3".to_owned() {
            Some(PrivacyRing::Ring3)
        } else {
            None
        }
    }
}

impl OrderView {
    /// The persisted form of the order.
    pub open spec fn json(self) -> Json {
        Json::Object(
            map![
                "id"@ => Json::Text(uuid_text(self.id)),
                "ring"@ => Json::Text(self.ring.spec_name()),
                "input_token"@ => Json::Text(self.input_token),
                "output_token"@ => Json::Text(self.output_token),
                "commitment"@ => Json::Text(self.commitment),
                "details"@ => Json::Text(self.details),
            ],
            seq!["id"@, "ring"@, "input_token"@, "output_token"@, "commitment"@, "details"@],
        )
    }

    /// The text of the persisted form.
    pub open spec fn text(self) -> Seq<char> {
        let entries = with_entry(seq![], "id"@, quoted(uuid_text(self.id)));
        let entries = with_entry(entries, "ring"@, quoted(self.ring.spec_name()));
        let entries = with_entry(entries, "input_token"@, quoted(self.input_token));
        let entries = with_entry(entries, "output_token"@, quoted(self.output_token));
        let entries = with_entry(entries, "commitment"@, quoted(self.commitment));
        let entries = with_entry(entries, "details"@, quoted(self.details));
        in_braces(entries)
    }

    /// The order that a persisted form stands for.
    pub open spec fn from_json(json: Json) -> Option<OrderView> {
        match (
            text_in(field_of(json, "id"@, 0, 6)),
            text_in(field_of(json, "ring"@, 1, 6)),
            text_in(field_of(json, "input_token"@, 2, 6)),
            text_in(field_of(json, "output_token"@, 3, 6)),
            text_in(field_of(json, "commitment"@, 4, 6)),
            text_in(field_of(json, "details"@, 5, 6)),
        ) {
            (
                Some(id),
                Some(ring),
                Some(input_token),
                Some(output_token),
                Some(commitment),
                Some(details),
            ) => match (uuid_parsed(id), PrivacyRing::spec_named(ring)) {
                (Some(id), Some(ring)) => Some(
                    OrderView { id, ring, input_token, output_token, commitment, details },
                ),
                _ => None,
            },
            _ => None,
        }
    }
}

impl Order {
    /// The persisted form of the order, which [`Self::from_json`] reads back.
    pub fn to_json(&self) -> (res: serde_json::Value)
        ensures
            value_json(res) == self@.json(),
            value_text(res) == self@.text(),
            OrderView::from_json(value_json(res)) == Some(self@),
            nests_within(value_json(res), 1),
    {
        let mut entries = empty_map();
        insert_entry(&mut entries, "id".to_owned(), text_value(print_uuid(self.id)));
        insert_entry(&mut entries, "ring".to_owned(), text_value(self.ring.name()));
        insert_entry(&mut entries, "input_token".to_owned(), text_value(self.input_token.clone()));
        insert_entry(
            &mut entries,
            "output_token".to_owned(),
            text_value(self.output_token.clone()),
        );
        insert_entry(&mut entries, "commitment".to_owned(), text_value(self.commitment.clone()));
        insert_entry(&mut entries, "details".to_owned(), text_value(self.details.clone()));
        proof {
            reveal_strlit("id");
            reveal_strlit("ring");
            reveal_strlit("input_token");
            reveal_strlit("output_token");
            reveal_strlit("commitment");
            reveal_strlit("details");
            assert("id"@.len() == 2 && "ring"@.len() == 4 && "input_token"@.len() == 11
                && "output_token"@.len() == 12 && "commitment"@.len() == 10 && "details"@.len()
                == 7);
            reveal_with_fuel(nests_within, 2);
            assert(map_keys(entries) =~= seq![
                "id"@,
                "ring"@,
                "input_token"@,
                "output_token"@,
                "commitment"@,
                "details"@,
            ]);
        }
        object_value(entries)
    }

    /// The order that a persisted form stands for.
    pub fn from_json(value: &serde_json::Value) -> (res: Option<Order>)
        ensures
            match res {
                Some(order) => OrderView::from_json(value_json(*value)) == Some(order@),
                None => OrderView::from_json(value_json(*value)) is None,
            },
    {
        let id = match text_field(value, "id", 0, 6) {
            Some(text) => match parse_uuid(text.as_str()) {
                Some(id) => id,
                None => return None,
            },
            None => return None,
        };
        let ring = match text_field(value, "ring", 1, 6) {
            Some(text) => match PrivacyRing::named(&text) {
                Some(ring) => ring,
                None => return None,
            },
            None => return None,
        };
        let input_token = match text_field(value, "input_token", 2, 6) {
            Some(text) => text,
            None => return None,
        };
        let output_token = match text_field(value, "output_token", 3, 6) {
            Some(text) => text,
            None => return None,
        };
        let commitment = match text_field(value, "commitment", 4, 6) {
            Some(text) => text,
            None => return None,
        };
        let details = match text_field(value, "details", 5, 6) {
            Some(text) => text,
            None => return None,
        };
        Some(Order { id, ring, input_token, output_token, commitment, details })
    }
}

impl BalanceView {
    /// The persisted form of the balance.
    pub open spec fn json(self) -> Json {
        Json::Object(
            map![
                "mint"@ => Json::Text(self.mint),
                "commitment"@ => Json::Text(self.commitment),
                "details"@ => Json::Text(self.details),
            ],
            seq!["mint"@, "commitment"@, "details"@],
        )
    }

    /// The text of the persisted form.
    pub open spec fn text(self) -> Seq<char> {
        let entries = with_entry(seq![], "mint"@, quoted(self.mint));
        let entries = with_entry(entries, "commitment"@, quoted(self.commitment));
        let entries = with_entry(entries, "details"@, quoted(self.details));
        in_braces(entries)
    }

    /// The balance that a persisted form stands for.
    pub open spec fn from_json(json: Json) -> Option<BalanceView> {
        match (
            text_in(field_of(json, "mint"@, 0, 3)),
            text_in(field_of(json, "commitment"@, 1, 3)),
            text_in(field_of(json, "details"@, 2, 3)),
        ) {
            (Some(mint), Some(commitment), Some(details)) => Some(
                BalanceView { mint, commitment, details },
            ),
            _ => None,
        }
    }
}

impl Balance {
    /// The persisted form of the balance, which [`Self::from_json`] reads back.
    pub fn to_json(&self) -> (res: serde_json::Value)
        ensures
            value_json(res) == self@.json(),
            value_text(res) == self@.text(),
            BalanceView::from_json(value_json(res)) == Some(self@),
            nests_within(value_json(res), 1),
    {
        let mut entries = empty_map();
        insert_entry(&mut entries, "mint".to_owned(), text_value(self.mint.clone()));
        insert_entry(&mut entries, "commitment".to_owned(), text_value(self.commitment.clone()));
        insert_entry(&mut entries, "details".to_owned(), text_value(self.details.clone()));
        proof {
            reveal_strlit("mint");
            reveal_strlit("commitment");
            reveal_strlit("details");
            assert("mint"@.len() == 4 && "commitment"@.len() == 10 && "details"@.len() == 7);
            reveal_with_fuel(nests_within, 2);
            assert(map_keys(entries) =~= seq!["mint"@, "commitment"@, "details"@]);
        }
        object_value(entries)
    }

    /// The balance that a persisted form stands for.
    pub fn from_json(value: &serde_json::Value) -> (res: Option<Balance>)
        ensures
            match res {
                Some(balance) => BalanceView::from_json(value_json(*value)) == Some(balance@),
                None => BalanceView::from_json(value_json(*value)) is None,
            },
    {
        let mint = match text_field(value, "mint", 0, 3) {
            Some(text) => text,
            None => return None,
        };
        let commitment = match text_field(value, "commitment", 1, 3) {
            Some(text) => text,
            None => return None,
        };
        let details = match text_field(value, "details", 2, 3) {
            Some(text) => text,
            None => return None,
        };
        Some(Balance { mint, commitment, details })
    }
}

} // verus!
