//! A minimal greeter service core: one remote operation, "say hello", backed
//! by one fixed read query against a greetings relation.
//!
//! The library holds the decision logic of the service: how a lookup outcome
//! becomes a reply or the one generic error, and how startup configuration is
//! accepted or rejected. The transport and the store round-trips themselves
//! are asynchronous I/O and live with the binary that embeds this crate.

pub mod greeter;
pub mod startup;
