//! The verified core of a newsletter service: the value types a subscription
//! request is parsed into, the workflow that reconciles a request with the
//! subscriber store, and the workflow that redeems a confirmation token.

pub mod configuration;
pub mod domain;
pub mod guarantees;
pub mod routes;
pub mod service;
pub mod store;
pub mod text;
