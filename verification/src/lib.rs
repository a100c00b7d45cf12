//! Deserialization-and-dispatch layer for an account-management contract.
//!
//! The library reads the named arguments of one contract invocation, checks
//! the requested action against a fixed, closed command set, and produces a
//! fully-typed [`api::Api`] command, or rejects the invocation. It is the one
//! place where untrusted call data crosses into typed business logic; applying
//! the command is left to the caller.

pub mod api;
pub mod context;
pub mod types;
