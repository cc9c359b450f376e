//! Newsletter subscriptions: the validation of what a subscriber submits,
//! the request that asks the delivery service for an email, and the steps
//! that lead one subscription request from its form to its response.
//!
//! Nothing in this crate reaches the store or the network. Where a step
//! needs one of them, the crate says what is to be done and takes the result
//! as a value. It does read the clock and the system's random numbers, for
//! the time and the identifier of a new record.

pub mod domain;
pub mod email_client;
pub mod json;
pub mod routes;
pub mod startup;
