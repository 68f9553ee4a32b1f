//! A privilege-dropping command dispatcher library.
//!
//! A setuid/setgid entry point accepts a subcommand token, irreversibly
//! drops its elevated identity down to the caller's effective identity
//! (group before user), and replaces the process image with one of a
//! small, fixed allow-list of system utilities. This crate holds the
//! security-relevant logic: the closed classification of tokens, the
//! fixed command table, the identity model with its drop ordering, and
//! the fail-closed control flow.

pub mod identity;
pub mod messages;
pub mod pipeline;
pub mod subcommand;
