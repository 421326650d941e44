//! Credential directory core: registration, authentication and session-token
//! validation in front of a fast cache and a durable relational store.
//!
//! The modules below hold the pure decision logic of the service. All
//! interaction with the outside world (the cache, the durable store, the
//! clock, configuration) happens elsewhere and is handed in as plain values;
//! password hashing and token signing are reached through small trusted
//! wrappers around their crates.

pub mod errors;
pub mod hashing;
pub mod helpers;
pub mod laws;
pub mod record;
pub mod service;
pub mod store;
pub mod token;
