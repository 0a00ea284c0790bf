//! Variant-gated command dispatch for a node binary that may be built with
//! one or more network runtimes linked in.
//!
//! The library decides, from the requested command, the chain identifier and
//! what this build contains, which runtime handles a request and how it is
//! run. The work itself (loading chain specifications, running the node
//! service) is left to the caller, which drives a [`dispatch::Dispatcher`]
//! step by step.

pub mod command;
pub mod dispatch;
pub mod error;
pub mod identity;
pub mod info;
pub mod variant;
