//! The core of a task driver.
//!
//! A task runs in steps, and after each step the state that it has come to is recorded
//! in a replicated task queue, with a payload from which the task can be restored on
//! another node. This crate holds what decides: the states of tasks and how the queue
//! records them, the bookkeeping of a running task, and the task that settles an
//! internal match, which after a crash must neither submit a match twice nor apply its
//! outcome twice.
//!
//! Nothing here talks to a network, a chain or a database. Where a step depends on such
//! a service, the crate says which call to make next and takes in the reply.
pub mod account;
pub mod hooks;
pub mod ids;
pub mod json;
pub mod resumption;
pub mod running_task;
pub mod settlement;
pub mod task_state;
pub mod task_state_laws;
pub mod traits;
