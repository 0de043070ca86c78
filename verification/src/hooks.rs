//! What is to happen once a task has ended.
use vstd::prelude::*;

use crate::ids::{AccountId, OrderId};

verus! {

/// Work to start when a task ends.
#[derive(Debug)]
pub enum TaskHook {
    /// Run the matching engine on orders of an account
    RunMatchingEngine { account_id: AccountId, order_ids: Vec<OrderId> },
    /// Refresh accounts
    RefreshAccount { account_ids: Vec<AccountId> },
}

} // verus!
