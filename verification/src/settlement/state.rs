//! The state of an internal match settlement through its execution.
use std::cmp::Ordering;

use vstd::prelude::*;

use crate::json::{
    as_object, as_text, empty_map, entry_count, field, field_of, in_braces, insert_entry, is_null,
    lemma_nests_within_more, map_entries, map_keys, member, nests_within, object_value, quoted,
    text_value, value_json, value_text, with_entry, Json,
};
use crate::settlement::party::{PartyStateTransition, PartyStateTransitionView};
use crate::traits::{state_depth, TaskState};

verus! {

/// The state of the task through its execution.
#[derive(Debug)]
pub enum SettleInternalMatchTaskState {
    /// The task is awaiting scheduling
    Pending,
    /// The task is submitting the transaction
    SubmittingTx,
    /// The task is submitting the transaction, and has persisted what it expects of
    /// it
    SubmittingTxPlanned {
        /// The persisted apply plan for party 0
        party0: PartyStateTransition,
        /// The persisted apply plan for party 1
        party1: PartyStateTransition,
    },
    /// The task is updating the account state for the parties involved in the
    /// match
    UpdatingState {
        /// The persisted apply plan for party 0
        party0: PartyStateTransition,
        /// The persisted apply plan for party 1
        party1: PartyStateTransition,
    },
    /// The task is regenerating validity proofs for private orders
    UpdatingValidityProofs,
    /// The task is completed
    Completed,
}

/// The model of a [`SettleInternalMatchTaskState`].
pub enum SettleInternalMatchTaskStateView {
    Pending,
    SubmittingTx,
    SubmittingTxPlanned { party0: PartyStateTransitionView, party1: PartyStateTransitionView },
    UpdatingState { party0: PartyStateTransitionView, party1: PartyStateTransitionView },
    UpdatingValidityProofs,
    Completed,
}

impl View for SettleInternalMatchTaskState {
    type V = SettleInternalMatchTaskStateView;

    open spec fn view(&self) -> SettleInternalMatchTaskStateView {
        match self {
            SettleInternalMatchTaskState::Pending => SettleInternalMatchTaskStateView::Pending,
            SettleInternalMatchTaskState::SubmittingTx => {
                SettleInternalMatchTaskStateView::SubmittingTx
            },
            SettleInternalMatchTaskState::SubmittingTxPlanned { party0, party1 } => {
                SettleInternalMatchTaskStateView::SubmittingTxPlanned {
                    party0: party0@,
                    party1: party1@,
                }
            },
            SettleInternalMatchTaskState::UpdatingState { party0, party1 } => {
                SettleInternalMatchTaskStateView::UpdatingState {
                    party0: party0@,
                    party1: party1@,
                }
            },
            SettleInternalMatchTaskState::UpdatingValidityProofs => {
                SettleInternalMatchTaskStateView::UpdatingValidityProofs
            },
            SettleInternalMatchTaskState::Completed => SettleInternalMatchTaskStateView::Completed,
        }
    }
}

impl Clone for SettleInternalMatchTaskState {
    fn clone(&self) -> (res: Self)
        ensures
            res == *self,
    {
        match self {
            SettleInternalMatchTaskState::Pending => SettleInternalMatchTaskState::Pending,
            SettleInternalMatchTaskState::SubmittingTx => {
                SettleInternalMatchTaskState::SubmittingTx
            },
            SettleInternalMatchTaskState::SubmittingTxPlanned { party0, party1 } => {
                SettleInternalMatchTaskState::SubmittingTxPlanned {
                    party0: party0.clone(),
                    party1: party1.clone(),
                }
            },
            SettleInternalMatchTaskState::UpdatingState { party0, party1 } => {
                SettleInternalMatchTaskState::UpdatingState {
                    party0: party0.clone(),
                    party1: party1.clone(),
                }
            },
            SettleInternalMatchTaskState::UpdatingValidityProofs => {
                SettleInternalMatchTaskState::UpdatingValidityProofs
            },
            SettleInternalMatchTaskState::Completed => SettleInternalMatchTaskState::Completed,
        }
    }
}

impl SettleInternalMatchTaskStateView {
    /// The place of the state in the execution of the task.
    pub open spec fn phase(self) -> u8 {
        match self {
            SettleInternalMatchTaskStateView::Pending => 0,
            SettleInternalMatchTaskStateView::SubmittingTx => 1,
            SettleInternalMatchTaskStateView::SubmittingTxPlanned { .. } => 1,
            SettleInternalMatchTaskStateView::UpdatingState { .. } => 2,
            SettleInternalMatchTaskStateView::UpdatingValidityProofs => 3,
            SettleInternalMatchTaskStateView::Completed => 4,
        }
    }

    /// The name that users see of the state.
    pub open spec fn name(self) -> Seq<char> {
        match self {
            SettleInternalMatchTaskStateView::Pending => "Pending"@,
            SettleInternalMatchTaskStateView::SubmittingTx => "SubmittingTx"@,
            SettleInternalMatchTaskStateView::SubmittingTxPlanned { .. } => "SubmittingTx"@,
            SettleInternalMatchTaskStateView::UpdatingState { .. } => "UpdatingState"@,
            SettleInternalMatchTaskStateView::UpdatingValidityProofs => "UpdatingValidityProofs"@,
            SettleInternalMatchTaskStateView::Completed => "Completed"@,
        }
    }

    /// The persisted form of the transitions of both parties.
    pub open spec fn parties_json(
        party0: PartyStateTransitionView,
        party1: PartyStateTransitionView,
    ) -> Json {
        Json::Object(
            map![
                "party0"@ => party0.json(),
                "party1"@ => party1.json(),
            ],
            seq!["party0"@, "party1"@],
        )
    }

    /// The text of the persisted form of the transitions of both parties.
    pub open spec fn parties_text(
        party0: PartyStateTransitionView,
        party1: PartyStateTransitionView,
    ) -> Seq<char> {
        let parties = with_entry(seq![], "party0"@, party0.text());
        in_braces(with_entry(parties, "party1"@, party1.text()))
    }

    /// The persisted form of a state with a payload, under the state's tag.
    pub open spec fn payload_json(
        tag: Seq<char>,
        party0: PartyStateTransitionView,
        party1: PartyStateTransitionView,
    ) -> Json {
        Json::Object(map![tag => Self::parties_json(party0, party1)], seq![tag])
    }

    /// The text of the persisted form of a state with a payload, under the state's tag.
    pub open spec fn payload_text(
        tag: Seq<char>,
        party0: PartyStateTransitionView,
        party1: PartyStateTransitionView,
    ) -> Seq<char> {
        in_braces(with_entry(seq![], tag, Self::parties_text(party0, party1)))
    }

    /// The persisted form of the state.
    pub open spec fn json(self) -> Json {
        match self {
            SettleInternalMatchTaskStateView::SubmittingTxPlanned { party0, party1 } => {
                Self::payload_json("SubmittingTxPlanned"@, party0, party1)
            },
            SettleInternalMatchTaskStateView::UpdatingState { party0, party1 } => {
                Self::payload_json("UpdatingState"@, party0, party1)
            },
            _ => Json::Text(self.name()),
        }
    }

    /// The text of the persisted form.
    pub open spec fn text(self) -> Seq<char> {
        match self {
            SettleInternalMatchTaskStateView::SubmittingTxPlanned { party0, party1 } => {
                Self::payload_text("SubmittingTxPlanned"@, party0, party1)
            },
            SettleInternalMatchTaskStateView::UpdatingState { party0, party1 } => {
                Self::payload_text("UpdatingState"@, party0, party1)
            },
            _ => quoted(self.name()),
        }
    }

    /// The state without a payload that has the given name.
    pub open spec fn plain_named(name: Seq<char>) -> Option<SettleInternalMatchTaskStateView> {
        if name == "Pending"@ {
            Some(SettleInternalMatchTaskStateView::Pending)
        } else if name == "SubmittingTx"@ {
            Some(SettleInternalMatchTaskStateView::SubmittingTx)
        } else if name == "UpdatingValidityProofs"@ {
            Some(SettleInternalMatchTaskStateView::UpdatingValidityProofs)
        } else if name == "Completed"@ {
            Some(SettleInternalMatchTaskStateView::Completed)
        } else {
            None
        }
    }

    /// The transitions of both parties that are persisted as `json`.
    pub open spec fn parties_from(json: Json) -> Option<
        (PartyStateTransitionView, PartyStateTransitionView),
    > {
        match (field_of(json, "party0"@, 0, 2), field_of(json, "party1"@, 1, 2)) {
            (Some(party0), Some(party1)) => match (
                PartyStateTransitionView::from_json(party0),
                PartyStateTransitionView::from_json(party1),
            ) {
                (Some(party0), Some(party1)) => Some((party0, party1)),
                _ => None,
            },
            _ => None,
        }
    }

    /// Whether the only entry of an object is `null` under the given name.
    pub open spec fn is_tag(entries: Map<Seq<char>, Json>, name: Seq<char>) -> bool {
        entries.dom().contains(name) && entries[name] == Json::Null
    }

    /// The state that a persisted form stands for.
    ///
    /// A state without a payload is its name, or an object with `null` under its
    /// name. A state with a payload is an object with the payload under its tag.
    /// Either object has that one entry.
    pub open spec fn from_json(json: Json) -> Option<SettleInternalMatchTaskStateView> {
        match json {
            Json::Text(name) => Self::plain_named(name),
            Json::Object(entries, _) => if entries.dom().len() != 1 {
                None
            } else if entries.dom().contains("UpdatingState"@) {
                match Self::parties_from(entries["UpdatingState"@]) {
                    Some((party0, party1)) => Some(
                        SettleInternalMatchTaskStateView::UpdatingState { party0, party1 },
                    ),
                    None => None,
                }
            } else if entries.dom().contains("SubmittingTxPlanned"@) {
                match Self::parties_from(entries["SubmittingTxPlanned"@]) {
                    Some((party0, party1)) => Some(
                        SettleInternalMatchTaskStateView::SubmittingTxPlanned { party0, party1 },
                    ),
                    None => None,
                }
            } else if Self::is_tag(entries, "Pending"@) {
                Some(SettleInternalMatchTaskStateView::Pending)
            } else if Self::is_tag(entries, "SubmittingTx"@) {
                Some(SettleInternalMatchTaskStateView::SubmittingTx)
            } else if Self::is_tag(entries, "UpdatingValidityProofs"@) {
                Some(SettleInternalMatchTaskStateView::UpdatingValidityProofs)
            } else if Self::is_tag(entries, "Completed"@) {
                Some(SettleInternalMatchTaskStateView::Completed)
            } else {
                None
            },
            _ => None,
        }
    }
}

/// The names of the states differ from one another.
pub(crate) proof fn lemma_names()
    ensures
        "Pending"@.len() == 7,
        "SubmittingTx"@.len() == 12,
        "SubmittingTxPlanned"@.len() == 19,
        "UpdatingState"@.len() == 13,
        "UpdatingValidityProofs"@.len() == 22,
        "Completed"@.len() == 9,
        "party0"@.len() == 6,
        "party0"@[5] == '0',
        "party1"@.len() == 6,
        "party1"@[5] == '1',
{
    reveal_strlit("Pending");
    reveal_strlit("SubmittingTx");
    reveal_strlit("SubmittingTxPlanned");
    reveal_strlit("UpdatingState");
    reveal_strlit("UpdatingValidityProofs");
    reveal_strlit("Completed");
    reveal_strlit("party0");
    reveal_strlit("party1");
}

/// Whether `value` has `null` under the given name.
fn is_tag(value: &serde_json::Value, name: &str) -> (res: bool)
    requires
        value_json(*value) is Object,
    ensures
        res == SettleInternalMatchTaskStateView::is_tag(value_json(*value)->Object_0, name@),
{
    match member(value, name) {
        Some(found) => is_null(found),
        None => false,
    }
}

impl TaskState for SettleInternalMatchTaskState {
    open spec fn phase_of(state: SettleInternalMatchTaskStateView) -> u8 {
        state.phase()
    }

    open spec fn committing() -> SettleInternalMatchTaskStateView {
        SettleInternalMatchTaskStateView::SubmittingTx
    }

    open spec fn completed_in(state: SettleInternalMatchTaskStateView) -> bool {
        state is Completed
    }

    open spec fn name_of(state: SettleInternalMatchTaskStateView) -> Seq<char> {
        state.name()
    }

    open spec fn written(state: SettleInternalMatchTaskStateView) -> Json {
        state.json()
    }

    open spec fn text_of(state: SettleInternalMatchTaskStateView) -> Seq<char> {
        state.text()
    }

    open spec fn read(json: Json) -> Option<SettleInternalMatchTaskStateView> {
        SettleInternalMatchTaskStateView::from_json(json)
    }

    fn phase(&self) -> (res: u8) {
        match self {
            SettleInternalMatchTaskState::Pending => 0,
            SettleInternalMatchTaskState::SubmittingTx => 1,
            SettleInternalMatchTaskState::SubmittingTxPlanned { .. } => 1,
            SettleInternalMatchTaskState::UpdatingState { .. } => 2,
            SettleInternalMatchTaskState::UpdatingValidityProofs => 3,
            SettleInternalMatchTaskState::Completed => 4,
        }
    }

    fn commit_point() -> (res: Self) {
        SettleInternalMatchTaskState::SubmittingTx
    }

    fn same(&self, other: &Self) -> (res: bool) {
        match (self, other) {
            (
                SettleInternalMatchTaskState::UpdatingState { party0, party1 },
                SettleInternalMatchTaskState::UpdatingState {
                    party0: other_party0,
                    party1: other_party1,
                },
            ) => *party0 == *other_party0 && *party1 == *other_party1,
            (
                SettleInternalMatchTaskState::SubmittingTxPlanned { party0, party1 },
                SettleInternalMatchTaskState::SubmittingTxPlanned {
                    party0: other_party0,
                    party1: other_party1,
                },
            ) => *party0 == *other_party0 && *party1 == *other_party1,
            (SettleInternalMatchTaskState::SubmittingTxPlanned { .. }, _) => false,
            (_, SettleInternalMatchTaskState::SubmittingTxPlanned { .. }) => false,
            _ => self.phase() == other.phase(),
        }
    }

    fn completed(&self) -> (res: bool) {
        match self {
            SettleInternalMatchTaskState::Completed => true,
            _ => false,
        }
    }

    fn to_string(&self) -> (res: String) {
        match self {
            SettleInternalMatchTaskState::Pending => "Pending".to_owned(),
            SettleInternalMatchTaskState::SubmittingTx => "SubmittingTx".to_owned(),
            SettleInternalMatchTaskState::SubmittingTxPlanned { .. } => "SubmittingTx".to_owned(),
            SettleInternalMatchTaskState::UpdatingState { .. } => "UpdatingState".to_owned(),
            SettleInternalMatchTaskState::UpdatingValidityProofs => {
                "UpdatingValidityProofs".to_owned()
            },
            SettleInternalMatchTaskState::Completed => "Completed".to_owned(),
        }
    }

    #[verifier::rlimit(50)]
    fn to_json(&self) -> (res: serde_json::Value) {
        proof {
            lemma_names();
        }
        match self {
            SettleInternalMatchTaskState::SubmittingTxPlanned { party0, party1 } => {
                let res = payload_to_json("SubmittingTxPlanned", party0, party1);
                assert(!value_json(res)->Object_0.dom().contains("UpdatingState"@));
                res
            },
            SettleInternalMatchTaskState::UpdatingState { party0, party1 } => {
                payload_to_json("UpdatingState", party0, party1)
            },
            _ => text_value(self.to_string()),
        }
    }

    fn from_json(value: &serde_json::Value) -> (res: Option<Self>) {
        match as_text(value) {
            Some(text) => {
                let name = text.to_owned();
                if name == "Pending".to_owned() {
                    Some(SettleInternalMatchTaskState::Pending)
                } else if name == "SubmittingTx".to_owned() {
                    Some(SettleInternalMatchTaskState::SubmittingTx)
                } else if name == "UpdatingValidityProofs".to_owned() {
                    Some(SettleInternalMatchTaskState::UpdatingValidityProofs)
                } else if name == "Completed".to_owned() {
                    Some(SettleInternalMatchTaskState::Completed)
                } else {
                    None
                }
            },
            None => match as_object(value) {
                Some(entries) => {
                    if entry_count(entries) != 1 {
                        return None;
                    }
                    match member(value, "UpdatingState") {
                        Some(parties) => match parties_from_json(parties) {
                            Some((party0, party1)) => Some(
                                SettleInternalMatchTaskState::UpdatingState { party0, party1 },
                            ),
                            None => None,
                        },
                        None => if let Some(parties) = member(value, "SubmittingTxPlanned") {
                            match parties_from_json(parties) {
                                Some((party0, party1)) => Some(
                                    SettleInternalMatchTaskState::SubmittingTxPlanned {
                                        party0,
                                        party1,
                                    },
                                ),
                                None => None,
                            }
                        } else if is_tag(value, "Pending") {
                            Some(SettleInternalMatchTaskState::Pending)
                        } else if is_tag(value, "SubmittingTx") {
                            Some(SettleInternalMatchTaskState::SubmittingTx)
                        } else if is_tag(value, "UpdatingValidityProofs") {
                            Some(SettleInternalMatchTaskState::UpdatingValidityProofs)
                        } else if is_tag(value, "Completed") {
                            Some(SettleInternalMatchTaskState::Completed)
                        } else {
                            None
                        },
                    }
                },
                None => None,
            },
        }
    }
}

/// The persisted form of the transitions of both parties.
fn parties_to_json(party0: &PartyStateTransition, party1: &PartyStateTransition) -> (res:
    serde_json::Value)
    ensures
        value_json(res) == SettleInternalMatchTaskStateView::parties_json(party0@, party1@),
        value_text(res) == SettleInternalMatchTaskStateView::parties_text(party0@, party1@),
        SettleInternalMatchTaskStateView::parties_from(value_json(res)) == Some((party0@, party1@)),
        nests_within(value_json(res), 3),
{
    proof {
        lemma_names();
    }
    let first = party0.to_json();
    let second = party1.to_json();
    let ghost first_json = value_json(first);
    let ghost second_json = value_json(second);
    let mut parties = empty_map();
    insert_entry(&mut parties, "party0".to_owned(), first);
    insert_entry(&mut parties, "party1".to_owned(), second);
    let res = object_value(parties);
    proof {
        let entries = map!["party0"@ => first_json, "party1"@ => second_json];
        assert(map_keys(parties) =~= seq!["party0"@, "party1"@]);
        assert(map_entries(parties) =~= entries);
        assert(nests_within(value_json(res), 3));
    }
    res
}

/// The persisted form of a state with a payload, under the state's tag.
fn payload_to_json(
    tag: &str,
    party0: &PartyStateTransition,
    party1: &PartyStateTransition,
) -> (res: serde_json::Value)
    ensures
        value_json(res) == SettleInternalMatchTaskStateView::payload_json(tag@, party0@, party1@),
        value_text(res) == SettleInternalMatchTaskStateView::payload_text(tag@, party0@, party1@),
        ({
            let entries = value_json(res)->Object_0;
            &&& entries.dom() == Set::<Seq<char>>::empty().insert(tag@)
            &&& entries.dom().len() == 1
            &&& SettleInternalMatchTaskStateView::parties_from(entries[tag@]) == Some(
                (party0@, party1@),
            )
        }),
        nests_within(value_json(res), state_depth()),
{
    let parties = parties_to_json(party0, party1);
    let ghost parties_json = value_json(parties);
    let mut entries = empty_map();
    insert_entry(&mut entries, tag.to_owned(), parties);
    let res = object_value(entries);
    proof {
        assert(map_keys(entries) =~= seq![tag@]);
        assert(map_entries(entries) =~= map![tag@ => parties_json]);
        assert(nests_within(value_json(res), 4));
        lemma_nests_within_more(value_json(res), 4, state_depth());
    }
    res
}

/// The transitions of both parties that are persisted as `value`.
fn parties_from_json(value: &serde_json::Value) -> (res: Option<
    (PartyStateTransition, PartyStateTransition),
>)
    ensures
        match res {
            Some((party0, party1)) => SettleInternalMatchTaskStateView::parties_from(
                value_json(*value),
            ) == Some((party0@, party1@)),
            None => SettleInternalMatchTaskStateView::parties_from(value_json(*value)) is None,
        },
{
    match (field(value, "party0", 0, 2), field(value, "party1", 1, 2)) {
        (Some(party0), Some(party1)) => match (
            PartyStateTransition::from_json(party0),
            PartyStateTransition::from_json(party1),
        ) {
            (Some(party0), Some(party1)) => Some((party0, party1)),
            _ => None,
        },
        _ => None,
    }
}

impl SettleInternalMatchTaskState {
    /// Compares two states by their phase. States that differ in their payload
    /// alone come out equal here, though they are not the same state.
    pub fn cmp(&self, other: &Self) -> (res: Ordering)
        ensures
            res == phase_order(self@, other@),
    {
        let phase: u8 = self.phase();
        let other_phase: u8 = other.phase();
        if phase < other_phase {
            Ordering::Less
        } else if phase == other_phase {
            Ordering::Equal
        } else {
            Ordering::Greater
        }
    }
}

/// The order of two states: that of their phases.
pub open spec fn phase_order(
    state: SettleInternalMatchTaskStateView,
    other: SettleInternalMatchTaskStateView,
) -> Ordering {
    if state.phase() < other.phase() {
        Ordering::Less
    } else if state.phase() == other.phase() {
        Ordering::Equal
    } else {
        Ordering::Greater
    }
}

/// The states are totally ordered by their phase: of two states neither or exactly
/// one comes first, and what comes before a state comes before all that follow it.
pub proof fn law_states_are_ordered(
    state: SettleInternalMatchTaskStateView,
    other: SettleInternalMatchTaskStateView,
    third: SettleInternalMatchTaskStateView,
)
    ensures
        phase_order(state, state) is Equal,
        phase_order(state, other) is Less <==> phase_order(other, state) is Greater,
        phase_order(state, other) is Equal <==> phase_order(other, state) is Equal,
        phase_order(state, other) is Less && !(phase_order(other, third) is Greater)
            ==> phase_order(state, third) is Less,
        phase_order(state, other) is Equal ==> phase_order(state, third) == phase_order(
            other,
            third,
        ),
{
}

impl vstd::std_specs::cmp::PartialEqSpecImpl for SettleInternalMatchTaskState {
    open spec fn obeys_eq_spec() -> bool {
        true
    }

    open spec fn eq_spec(&self, other: &Self) -> bool {
        self@ == other@
    }
}

impl PartialEq for SettleInternalMatchTaskState {
    fn eq(&self, other: &Self) -> (res: bool) {
        self.same(other)
    }
}

impl Eq for SettleInternalMatchTaskState {

}

impl vstd::std_specs::cmp::PartialOrdSpecImpl for SettleInternalMatchTaskState {
    open spec fn obeys_partial_cmp_spec() -> bool {
        true
    }

    open spec fn partial_cmp_spec(&self, other: &Self) -> Option<Ordering> {
        Some(phase_order(self@, other@))
    }
}

impl PartialOrd for SettleInternalMatchTaskState {
    fn partial_cmp(&self, other: &Self) -> (res: Option<Ordering>) {
        Some(self.cmp(other))
    }
}

} // verus!
