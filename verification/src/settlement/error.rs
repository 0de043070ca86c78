//! Errors of the internal match settlement task.
use vstd::prelude::*;

use crate::ids::{print_uuid, uuid_text, OrderId};
use crate::traits::TaskError;

verus! {

/// The error type of the settle internal match task.
#[derive(Debug)]
pub enum SettleInternalMatchTaskError {
    /// A darkpool client error
    Darkpool(String),
    /// A settlement error
    Settlement(String),
    /// An error interacting with global state
    State(String),
    /// A validity proof generation error
    ValidityProofs(String),
}

/// The model of a [`SettleInternalMatchTaskError`].
pub enum SettleInternalMatchTaskErrorView {
    Darkpool(Seq<char>),
    Settlement(Seq<char>),
    State(Seq<char>),
    ValidityProofs(Seq<char>),
}

impl View for SettleInternalMatchTaskError {
    type V = SettleInternalMatchTaskErrorView;

    open spec fn view(&self) -> SettleInternalMatchTaskErrorView {
        match self {
            SettleInternalMatchTaskError::Darkpool(message) => {
                SettleInternalMatchTaskErrorView::Darkpool(message@)
            },
            SettleInternalMatchTaskError::Settlement(message) => {
                SettleInternalMatchTaskErrorView::Settlement(message@)
            },
            SettleInternalMatchTaskError::State(message) => {
                SettleInternalMatchTaskErrorView::State(message@)
            },
            SettleInternalMatchTaskError::ValidityProofs(message) => {
                SettleInternalMatchTaskErrorView::ValidityProofs(message@)
            },
        }
    }
}

impl Clone for SettleInternalMatchTaskError {
    fn clone(&self) -> (res: Self)
        ensures
            res == *self,
    {
        match self {
            SettleInternalMatchTaskError::Darkpool(message) => {
                SettleInternalMatchTaskError::Darkpool(message.clone())
            },
            SettleInternalMatchTaskError::Settlement(message) => {
                SettleInternalMatchTaskError::Settlement(message.clone())
            },
            SettleInternalMatchTaskError::State(message) => {
                SettleInternalMatchTaskError::State(message.clone())
            },
            SettleInternalMatchTaskError::ValidityProofs(message) => {
                SettleInternalMatchTaskError::ValidityProofs(message.clone())
            },
        }
    }
}

impl TaskError for SettleInternalMatchTaskError {
    open spec fn spec_retryable(&self) -> bool {
        self is State
    }

    /// Only a failure to reach the global state is worth another try.
    fn retryable(&self) -> (res: bool) {
        match self {
            SettleInternalMatchTaskError::State(_) => true,
            _ => false,
        }
    }
}

impl SettleInternalMatchTaskErrorView {
    /// The text that users see of the error.
    pub open spec fn text(self) -> Seq<char> {
        match self {
            SettleInternalMatchTaskErrorView::Darkpool(message) => "darkpool client error: "@
                + message,
            SettleInternalMatchTaskErrorView::Settlement(message) => "settlement error: "@
                + message,
            SettleInternalMatchTaskErrorView::State(message) => "state error: "@ + message,
            SettleInternalMatchTaskErrorView::ValidityProofs(message) => "validity proof error: "@
                + message,
        }
    }
}

impl SettleInternalMatchTaskError {
    /// The text that users see of the error.
    pub fn to_string(&self) -> (res: String)
        ensures
            res@ == self@.text(),
    {
        match self {
            SettleInternalMatchTaskError::Darkpool(message) => {
                "darkpool client error: ".to_owned().concat(message.as_str())
            },
            SettleInternalMatchTaskError::Settlement(message) => {
                "settlement error: ".to_owned().concat(message.as_str())
            },
            SettleInternalMatchTaskError::State(message) => {
                "state error: ".to_owned().concat(message.as_str())
            },
            SettleInternalMatchTaskError::ValidityProofs(message) => {
                "validity proof error: ".to_owned().concat(message.as_str())
            },
        }
    }
}

/// A failure of settlement.
#[derive(Debug)]
pub struct SettlementError {
    /// What the failure says of itself
    pub text: String,
}

/// A failure to interact with the global state.
#[derive(Debug)]
pub struct StateError {
    /// What the failure says of itself
    pub text: String,
}

/// A failure of the darkpool client.
#[derive(Debug)]
pub struct DarkpoolClientError {
    /// What the failure says of itself
    pub text: String,
}

/// A failure to prove validity.
#[derive(Debug)]
pub struct ValidityProofsError {
    /// What the failure says of itself
    pub text: String,
}

impl SettlementError {
    /// A failure of settlement on the darkpool's side.
    pub fn darkpool(text: &str) -> (res: Self)
        ensures
            res.text@ == text@,
    {
        SettlementError { text: text.to_owned() }
    }

    /// A failure of settlement on the side of the local state.
    pub fn state(text: String) -> (res: Self)
        ensures
            res.text == text,
    {
        SettlementError { text }
    }
}

impl SettlementError {
    /// What the failure says of itself.
    pub fn to_string(&self) -> (res: String)
        ensures
            res == self.text,
    {
        self.text.clone()
    }
}

impl vstd::std_specs::convert::FromSpecImpl<SettlementError> for SettleInternalMatchTaskError {
    open spec fn obeys_from_spec() -> bool {
        true
    }

    open spec fn from_spec(error: SettlementError) -> Self {
        SettleInternalMatchTaskError::Settlement(error.text)
    }
}

impl From<SettlementError> for SettleInternalMatchTaskError {
    /// The error with which a failure of settlement ends the task.
    fn from(error: SettlementError) -> (res: Self)
        ensures
            res == SettleInternalMatchTaskError::Settlement(error.text),
            res@ == SettleInternalMatchTaskErrorView::Settlement(error.text@),
            !res.spec_retryable(),
    {
        SettleInternalMatchTaskError::Settlement(error.to_string())
    }
}

impl StateError {
    /// What the failure says of itself.
    pub fn to_string(&self) -> (res: String)
        ensures
            res == self.text,
    {
        self.text.clone()
    }
}

impl vstd::std_specs::convert::FromSpecImpl<StateError> for SettleInternalMatchTaskError {
    open spec fn obeys_from_spec() -> bool {
        true
    }

    open spec fn from_spec(error: StateError) -> Self {
        SettleInternalMatchTaskError::State(error.text)
    }
}

impl From<StateError> for SettleInternalMatchTaskError {
    /// The error with which a failure of the global state ends the task.
    fn from(error: StateError) -> (res: Self)
        ensures
            res == SettleInternalMatchTaskError::State(error.text),
            res@ == SettleInternalMatchTaskErrorView::State(error.text@),
            res.spec_retryable(),
    {
        SettleInternalMatchTaskError::State(error.to_string())
    }
}

impl DarkpoolClientError {
    /// What the failure says of itself.
    pub fn to_string(&self) -> (res: String)
        ensures
            res == self.text,
    {
        self.text.clone()
    }
}

impl vstd::std_specs::convert::FromSpecImpl<DarkpoolClientError> for SettleInternalMatchTaskError {
    open spec fn obeys_from_spec() -> bool {
        true
    }

    open spec fn from_spec(error: DarkpoolClientError) -> Self {
        SettleInternalMatchTaskError::Darkpool(error.text)
    }
}

impl From<DarkpoolClientError> for SettleInternalMatchTaskError {
    /// The error with which a failure of the darkpool client ends the task.
    fn from(error: DarkpoolClientError) -> (res: Self)
        ensures
            res == SettleInternalMatchTaskError::Darkpool(error.text),
            res@ == SettleInternalMatchTaskErrorView::Darkpool(error.text@),
            !res.spec_retryable(),
    {
        SettleInternalMatchTaskError::Darkpool(error.to_string())
    }
}

impl ValidityProofsError {
    /// What the failure says of itself.
    pub fn to_string(&self) -> (res: String)
        ensures
            res == self.text,
    {
        self.text.clone()
    }
}

impl vstd::std_specs::convert::FromSpecImpl<ValidityProofsError> for SettleInternalMatchTaskError {
    open spec fn obeys_from_spec() -> bool {
        true
    }

    open spec fn from_spec(error: ValidityProofsError) -> Self {
        SettleInternalMatchTaskError::ValidityProofs(error.text)
    }
}

impl From<ValidityProofsError> for SettleInternalMatchTaskError {
    /// The error with which a failure to prove validity ends the task.
    fn from(error: ValidityProofsError) -> (res: Self)
        ensures
            res == SettleInternalMatchTaskError::ValidityProofs(error.text),
            res@ == SettleInternalMatchTaskErrorView::ValidityProofs(error.text@),
            !res.spec_retryable(),
    {
        SettleInternalMatchTaskError::ValidityProofs(error.to_string())
    }
}

/// The refusal to apply local state for a match whose on-chain leg is not known
/// to have finalized.
pub open spec fn not_finalized() -> SettleInternalMatchTaskErrorView {
    SettleInternalMatchTaskErrorView::Settlement(
        "recovered settlement is still in SubmittingTx and chain finalization could not be proven; refusing to apply local state"@,
    )
}

/// The refusal to apply a transition to a local state from which it does not start.
pub open spec fn unexpected_local_state(order_id: OrderId) -> SettleInternalMatchTaskErrorView {
    SettleInternalMatchTaskErrorView::Settlement(
        "recovered settlement for order "@ + uuid_text(order_id)
            + " is in an unexpected local state; refusing to replay"@,
    )
}

/// The refusal to build a transition without the updated order.
pub open spec fn missing_updated_order() -> SettleInternalMatchTaskErrorView {
    SettleInternalMatchTaskErrorView::Settlement(
        "updated order missing while building settlement recovery state"@,
    )
}

/// The refusal to take up a committed settlement without what it has persisted.
pub open spec fn missing_recovery_payload() -> SettleInternalMatchTaskErrorView {
    SettleInternalMatchTaskErrorView::Settlement(
        "queued settlement has no readable recovery payload; refusing to rerun"@,
    )
}

/// Refuses to take up a committed settlement without what it has persisted.
pub(crate) fn refuse_missing_recovery_payload() -> (res: SettleInternalMatchTaskError)
    ensures
        res@ == missing_recovery_payload(),
{
    SettleInternalMatchTaskError::from(
        SettlementError::state(
            "queued settlement has no readable recovery payload; refusing to rerun".to_owned(),
        ),
    )
}

/// Refuses to apply local state for a match whose on-chain leg is not known to
/// have finalized.
pub(crate) fn refuse_not_finalized() -> (res: SettleInternalMatchTaskError)
    ensures
        res@ == not_finalized(),
{
    SettleInternalMatchTaskError::from(
        SettlementError::darkpool(
            "recovered settlement is still in SubmittingTx and chain finalization could not be proven; refusing to apply local state",
        ),
    )
}

/// Refuses to apply a transition to a local state from which it does not start.
pub(crate) fn refuse_unexpected_local_state(order_id: OrderId) -> (res:
    SettleInternalMatchTaskError)
    ensures
        res@ == unexpected_local_state(order_id),
{
    SettleInternalMatchTaskError::from(
        SettlementError::state(
            "recovered settlement for order ".to_owned().concat(
                print_uuid(order_id).as_str(),
            ).concat(" is in an unexpected local state; refusing to replay"),
        ),
    )
}

/// Refuses to build a transition without the updated order.
pub(crate) fn refuse_missing_updated_order() -> (res: SettleInternalMatchTaskError)
    ensures
        res@ == missing_updated_order(),
{
    SettleInternalMatchTaskError::Settlement(
        "updated order missing while building settlement recovery state".to_owned(),
    )
}

} // verus!
