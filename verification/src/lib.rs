//! Client-side orchestration for Network Time Security (NTS).
//!
//! The library derives an immutable client configuration from command-line
//! inputs, sequences the two protocol phases (TLS-based key establishment,
//! then authenticated NTP over UDP), and maps each phase's outcome to a
//! process report: diagnostic text, standard-output lines, and an exit code.
//! The phases themselves are external collaborators; callers perform them and
//! hand their results back to the orchestrator.

pub mod config;
pub mod orchestrator;
pub mod report;
