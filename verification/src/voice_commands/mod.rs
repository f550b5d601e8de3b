//! Deterministic voice commands: recognition, execution and undo history.
pub mod executor;
pub mod history;
pub mod parser;
