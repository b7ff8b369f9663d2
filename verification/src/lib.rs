//! Verified core of a self-replicating service provisioner.
//!
//! A provisioning run makes three remote calls against a backend, in order:
//! create a service, connect it to a source repository, and expose a public
//! domain. This crate holds the verified logic of that workflow: recursion
//! level parsing and derivation, identity generation and naming, payload
//! construction, response classification, and the fail-fast orchestration
//! state machine. The HTTP transport that carries the calls lives outside
//! the library.

pub mod client;
pub mod config;
pub mod digits;
pub mod identity;
pub mod level;
pub mod payload;
pub mod workflow;
