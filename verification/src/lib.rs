//! Mode-aware argument validation for a canister command-line tool.
//!
//! Subcommands (canister lifecycle control, token transfer) accept a
//! combination of optional arguments — a target identifier, a network
//! specification, an environment name — whose legality depends on the
//! execution mode: inside a project directory, or global. Before any
//! networked operation runs, the argument bundle is checked by an ordered
//! pipeline of pure rules; the first failing rule's diagnostic is reported
//! and nothing else happens.
//!
//! The addressing types, the mode, the rules, the pipelines and the
//! diagnostic catalog live here, each with a contract that pins down
//! exactly when validation succeeds and which diagnostic it reports.

pub mod args;
pub mod laws;
pub mod lifecycle;
pub mod mode;
pub mod principal;
pub mod transfer;
pub mod validations;
