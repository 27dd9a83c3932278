//! Event-handling core for a greeting service: an inbound event is validated,
//! a target store location is resolved from configuration with a safe default,
//! the event is projected into a record for a key-value store, and the outcome
//! of the store call is mapped to a greeting or a typed error.

pub mod errors;
pub mod handler;
pub mod model;
pub mod region;
pub mod store;
