//! Workflow orchestration: workflow definitions, running instances, tasks,
//! approvals and cases, with the rules that move them from state to state.

pub mod ids;
pub mod keyed;
pub mod domain;
pub mod engine;
pub mod types;
pub mod store;
pub mod server;
pub mod laws;
pub mod rules;
