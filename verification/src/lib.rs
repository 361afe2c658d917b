//! A verified model of a small HTTP API service: one value type, one
//! declared route with a fixed response, and the messages reported when
//! setting the service up fails.
//!
//! The pieces that talk to the network live outside this library; what is
//! here is every decision the service makes, each with a contract.

pub mod api;
pub mod startup;
pub mod thing;
