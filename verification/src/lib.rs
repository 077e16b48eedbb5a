//! Core of a status-keeper shell: a lifecycle controller that owns the
//! authoritative run state of an external worker process, derives the
//! worker's command-line arguments from a persisted configuration, and
//! keeps the tray menu and window presentation in step with that state.

pub mod bridge;
pub mod config;
pub mod digits;
pub mod lifecycle;
pub mod present;
pub mod store;
pub mod worker;
