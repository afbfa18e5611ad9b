//! Control logic of a password-manager client: the pending operation, the
//! stack of modal workflow steps that collects what the operation needs, the
//! local directory of vaults, and the lifetime of a secret on the clipboard.
//!
//! `model` holds the orchestrator as a mathematical state machine and `laws`
//! what is proved of it; `manager` is the executable orchestrator, proved to
//! take exactly the steps of the model.

pub mod directory;
pub mod fields;
pub mod generator;
pub mod laws;
pub mod manager;
pub mod message;
pub mod model;
pub mod order;
pub mod schema;
pub mod state;
pub mod store;
pub mod temp_message;
