//! A permissioned state-transition engine: operations that register users,
//! submit access-controlled data-sharing applications, and audit those
//! applications, all backed by a namespaced key-value store and gated by
//! role-based authorization rules.

pub mod auth;
pub mod engine;
pub mod errors;
pub mod laws;
pub mod state;
pub mod store;
