//! Settlement of internal matches.
pub mod capture;
pub mod error;
pub mod laws;
pub mod local_laws;
pub mod party;
pub mod persisted_laws;
pub mod recovery;
pub mod resume;
pub mod service;
pub mod state;
pub mod step;
pub mod submission;
pub mod task;
pub mod task_laws;
pub mod transcript;
pub mod update;
pub mod validity;
