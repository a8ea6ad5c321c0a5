//! Storage-media diagnosis engine: a deterministic, offset-keyed content
//! generator, write/verify/quick-probe phase state machines, a failure
//! classifier, and a report generator with localized rendering.
pub mod align;
pub mod cli;
pub mod config;
pub mod decimal;
pub mod generator;
pub mod i18n;
pub mod i18n_cli;
pub mod inspector;
pub mod probe;
pub mod report;
pub mod status;
pub mod strutil;
pub mod verify_phase;
pub mod write_phase;
