//! Core engine of a prepaid machine-rental backend: user minute balances,
//! machine occupancy and liveness, and timed sessions that meter elapsed
//! minutes and debit prepaid balances.
//!
//! Every operation is a request-scoped unit of work on the owning component;
//! exclusive (`&mut`) access to a component stands for the per-resource
//! serialization the deployment must provide.

pub mod auth;
pub mod clock;
pub mod errors;
pub mod ledger;
pub mod machines;
pub mod models;
pub mod order;
pub mod sessions;
pub mod user_service;
