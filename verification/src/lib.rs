//! The data and identity layer of a practice platform for short lessons.
//!
//! The library holds the rules: what a user, a task and an answer are, how
//! the memberships of a relation are reconciled with the store, when a
//! session token is good and whom it authorizes, and how an answer is graded.
//! It neither talks to the store nor to the network. Every operation that
//! changes the store yields a plan, a list of statements that the caller runs
//! as one transaction; every operation that reads takes the rows that the
//! caller has read. The `store` module says what the statements mean, and the
//! `laws` module what holds of the plans once they have run.

pub mod answer;
pub mod database;
pub mod ident;
pub mod laws;
pub mod outside;
pub mod reconcile;
pub mod server;
pub mod session;
pub mod statement;
pub mod store;
pub mod task;
pub mod text;
pub mod user;
