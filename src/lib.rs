//! Supervisory logic of a task-driven conversation orchestrator: it derives
//! the configuration of one conversation-state worker, keeps its own state
//! in an opaque byte blob, dispatches requests to the worker and reacts to
//! the worker's lifecycle events.
pub mod config;
pub mod dispatch;
pub mod json;
pub mod protocol;
pub mod state;
pub mod supervision;
pub mod task;
